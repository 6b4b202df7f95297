use rust_backend::catalog::{ServiceQuery, SoftwareQuery};
use rust_backend::storefront::{get_prebuilts, get_softwares, Query};
use rust_backend::views::{CategoryGraphQL, GpuSpecGraphQL, PartGraphQL, RootQuery};

#[test]
fn services_listing() {
    let services = ServiceQuery::get_services();
    assert_eq!(services.len(), 4);
    assert_eq!(services[0].name(), "Workstations for Creators");
    assert_eq!(services[3].image_url(), "services/gaming.jpg");
}

#[test]
fn software_listings() {
    let a = SoftwareQuery::get_softwares();
    let b = get_softwares();
    assert_eq!(a.len(), 4);
    assert_eq!(a[0].name(), "PIX4D");
    assert_eq!(a[0].image_url(), "software/pix4d.png");
    assert_eq!(b[3].name(), "Blender");
    assert_eq!(b[3].image_url(), "/assets/images/home/blender.jpg");
    assert_eq!(b[1].description(), "Description for Autodesk");
}

#[test]
fn prebuilt_listing() {
    let p = get_prebuilts();
    assert_eq!(p.len(), 3);
    assert_eq!(p[0].name, "Stealth");
    assert_eq!(p[1].specifications.len(), 6);
    assert_eq!(p[2].specifications[3].value, "NVIDIA RTX 4080 SUPER 16GB Graphics Card");
}

#[test]
fn api_version() {
    assert_eq!(RootQuery::apiVersion(), "1.0");
    assert_eq!(Query::api_version(), "1.0");
}

#[test]
fn view_getters() {
    let c = CategoryGraphQL { id: 2, name: String::from("GPU"), description: None };
    assert_eq!(c.id(), 2);
    assert_eq!(c.name(), "GPU");
    assert_eq!(c.description(), None);
    let g = GpuSpecGraphQL {
        part_id: 5,
        cuda_cores: Some(7680),
        vram_size: Some(String::from("12")),
        vram_type: None,
        tdp: Some(200),
        memory_bandwidth: None,
        interface: None,
        form_factor: None,
        outputs: Some(vec![Some(String::from("HDMI"))]),
        length: None,
    };
    assert_eq!(g.vram_size(), Some("12"));
    assert_eq!(g.outputs().map(|o| o.len()), Some(1));
    let p = PartGraphQL {
        id: 1,
        manufacturer_id: Some(1),
        category_id: None,
        name: String::from("Core i5"),
        model: String::from("13600K"),
        price: Some(String::from("299.99")),
        common_specifications: None,
    };
    assert_eq!(p.price(), Some("299.99"));
    assert_eq!(p.commonSpecifications(), None);
}
