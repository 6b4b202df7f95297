//! The storefront's own listings: prebuilt systems and featured software.
use vstd::prelude::*;

verus! {

/// The API's root query of the storefront.
pub struct Query;

impl Query {
    /// The version of the API.
    pub fn api_version() -> (r: String)
        ensures
            r@ == "1.0"@,
    {
        String::from_str("1.0")
    }
}

/// A specification line of a prebuilt system.
#[derive(Debug)]
pub struct Spec {
    pub key: String,
    pub value: String,
}

impl DeepView for Spec {
    type V = (Seq<char>, Seq<char>);

    open spec fn deep_view(&self) -> (Seq<char>, Seq<char>) {
        (self.key@, self.value@)
    }
}

impl Spec {
    /// Builds a specification line.
    pub fn new(key: &str, value: &str) -> (r: Spec)
        ensures
            r.deep_view() == (key@, value@),
    {
        Spec { key: String::from_str(key), value: String::from_str(value) }
    }
}

/// A prebuilt system offered.
#[derive(Debug)]
pub struct Prebuilt {
    pub name: String,
    pub description: String,
    pub image_url: String,
    pub specifications: Vec<Spec>,
}

impl DeepView for Prebuilt {
    type V = (Seq<char>, Seq<char>, Seq<char>, Seq<(Seq<char>, Seq<char>)>);

    open spec fn deep_view(&self) -> (Seq<char>, Seq<char>, Seq<char>, Seq<(Seq<char>, Seq<char>)>) {
        (self.name@, self.description@, self.image_url@, self.specifications.deep_view())
    }
}

impl Prebuilt {
    /// Builds a prebuilt system from its texts and specification lines.
    pub fn new(name: &str, description: &str, image_url: &str, specifications: Vec<Spec>) -> (r:
        Prebuilt)
        ensures
            r.deep_view() == (name@, description@, image_url@, specifications.deep_view()),
    {
        Prebuilt {
            name: String::from_str(name),
            description: String::from_str(description),
            image_url: String::from_str(image_url),
            specifications,
        }
    }
}

/// The prebuilt systems offered, in order: name, description, image, and
/// specifications as key and value.
pub open spec fn prebuilt_listing() -> Seq<(Seq<char>, Seq<char>, Seq<char>, Seq<(Seq<char>, Seq<char>)>)> {
    seq![
        (
            "Stealth"@,
            "Intel Core i3"@,
            "prebuilts/stealth.png"@,
            seq![
                ("CPU"@, "Intel Core i3"@),
                ("RAM"@, "16GB DDR4 RAM"@),
                ("Storage"@, "1TB M.2 SSD"@),
                ("GPU"@, "NVIDIA RTX 4060 8GB Graphics Card"@),
                ("PSU"@, "750W Certified Power Supply"@),
                ("OS"@, "Windows 11"@),
            ],
        ),
        (
            "Darkwake"@,
            "Intel Core i5"@,
            "prebuilts/darkwake.png"@,
            seq![
                ("CPU"@, "Intel Core i5"@),
                ("RAM"@, "32GB DRR5 RAM"@),
                ("Storage"@, "2TB M.2 SSD"@),
                ("GPU"@, "NVIDIA RTX 4070 SUPER 12GB Graphics Card"@),
                ("PSU"@, "850W Certified Power Supply"@),
                ("OS"@, "Windows 11"@),
            ],
        ),
        (
            "Shadowblade"@,
            "Intel Core i7"@,
            "prebuilts/shadowblade.png"@,
            seq![
                ("CPU"@, "Intel Core i7"@),
                ("RAM"@, "64GB DRR5 RAM"@),
                ("Storage"@, "4TB M.2 SSD"@),
                ("GPU"@, "NVIDIA RTX 4080 SUPER 16GB Graphics Card"@),
                ("PSU"@, "1000W Certified Power Supply"@),
                ("OS"@, "Windows 11"@),
            ],
        ),
    ]
}

/// The prebuilt systems offered.
pub fn get_prebuilts() -> (r: Vec<Prebuilt>)
    ensures
        r.deep_view() == prebuilt_listing(),
{
    let mut r: Vec<Prebuilt> = Vec::new();
    let mut specifications: Vec<Spec> = Vec::new();
    specifications.push(Spec::new("CPU", "Intel Core i3"));
    specifications.push(Spec::new("RAM", "16GB DDR4 RAM"));
    specifications.push(Spec::new("Storage", "1TB M.2 SSD"));
    specifications.push(Spec::new("GPU", "NVIDIA RTX 4060 8GB Graphics Card"));
    specifications.push(Spec::new("PSU", "750W Certified Power Supply"));
    specifications.push(Spec::new("OS", "Windows 11"));
    assert(specifications.deep_view() =~= prebuilt_listing()[0].3);
    r.push(Prebuilt::new("Stealth", "Intel Core i3", "prebuilts/stealth.png", specifications));
    let mut specifications: Vec<Spec> = Vec::new();
    specifications.push(Spec::new("CPU", "Intel Core i5"));
    specifications.push(Spec::new("RAM", "32GB DRR5 RAM"));
    specifications.push(Spec::new("Storage", "2TB M.2 SSD"));
    specifications.push(Spec::new("GPU", "NVIDIA RTX 4070 SUPER 12GB Graphics Card"));
    specifications.push(Spec::new("PSU", "850W Certified Power Supply"));
    specifications.push(Spec::new("OS", "Windows 11"));
    assert(specifications.deep_view() =~= prebuilt_listing()[1].3);
    r.push(Prebuilt::new("Darkwake", "Intel Core i5", "prebuilts/darkwake.png", specifications));
    let mut specifications: Vec<Spec> = Vec::new();
    specifications.push(Spec::new("CPU", "Intel Core i7"));
    specifications.push(Spec::new("RAM", "64GB DRR5 RAM"));
    specifications.push(Spec::new("Storage", "4TB M.2 SSD"));
    specifications.push(Spec::new("GPU", "NVIDIA RTX 4080 SUPER 16GB Graphics Card"));
    specifications.push(Spec::new("PSU", "1000W Certified Power Supply"));
    specifications.push(Spec::new("OS", "Windows 11"));
    assert(specifications.deep_view() =~= prebuilt_listing()[2].3);
    r.push(Prebuilt::new("Shadowblade", "Intel Core i7", "prebuilts/shadowblade.png", specifications));
    assert(r.deep_view() =~= prebuilt_listing());
    r
}

/// A software product featured on the home page.
#[derive(Debug)]
pub struct Software {
    pub name: String,
    pub description: String,
    pub image_url: String,
}

impl DeepView for Software {
    type V = (Seq<char>, Seq<char>, Seq<char>);

    open spec fn deep_view(&self) -> (Seq<char>, Seq<char>, Seq<char>) {
        (self.name@, self.description@, self.image_url@)
    }
}

impl Software {
    /// Builds an entry from its texts.
    pub fn new(name: &str, description: &str, image_url: &str) -> (r: Software)
        ensures
            r.deep_view() == (name@, description@, image_url@),
    {
        Software {
            name: String::from_str(name),
            description: String::from_str(description),
            image_url: String::from_str(image_url),
        }
    }

    pub fn name(&self) -> (r: &str)
        ensures
            r@ == self.name@,
    {
        self.name.as_str()
    }

    pub fn description(&self) -> (r: &str)
        ensures
            r@ == self.description@,
    {
        self.description.as_str()
    }

    pub fn image_url(&self) -> (r: &str)
        ensures
            r@ == self.image_url@,
    {
        self.image_url.as_str()
    }
}

/// The software products featured on the home page, in order: name, description, image.
pub open spec fn home_software_listing() -> Seq<(Seq<char>, Seq<char>, Seq<char>)> {
    seq![
        ("PIX4D"@, "Description for PIX4D"@, "/assets/images/home/pix4d.jpg"@),
        ("Autodesk"@, "Description for Autodesk"@, "/assets/images/home/autodesk.jpg"@),
        ("RenderMan"@, "Description for RenderMan"@, "/assets/images/home/renderman.jpg"@),
        ("Blender"@, "Description for Blender"@, "/assets/images/home/blender.jpg"@),
    ]
}

/// The software products featured on the home page.
pub fn get_softwares() -> (r: Vec<Software>)
    ensures
        r.deep_view() == home_software_listing(),
{
    let mut r: Vec<Software> = Vec::new();
    r.push(Software::new(
        "PIX4D",
        "Description for PIX4D",
        "/assets/images/home/pix4d.jpg",
    ));
    r.push(Software::new(
        "Autodesk",
        "Description for Autodesk",
        "/assets/images/home/autodesk.jpg",
    ));
    r.push(Software::new(
        "RenderMan",
        "Description for RenderMan",
        "/assets/images/home/renderman.jpg",
    ));
    r.push(Software::new(
        "Blender",
        "Description for Blender",
        "/assets/images/home/blender.jpg",
    ));
    assert(r.deep_view() =~= home_software_listing());
    r
}

} // verus!
