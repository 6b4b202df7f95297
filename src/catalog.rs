//! The fixed listings of services and software products that the API
//! serves.
use vstd::prelude::*;

verus! {

/// A service offered.
#[derive(Debug)]
pub struct Service {
    pub name: String,
    pub description: String,
    pub image_url: String,
}

impl DeepView for Service {
    type V = (Seq<char>, Seq<char>, Seq<char>);

    open spec fn deep_view(&self) -> (Seq<char>, Seq<char>, Seq<char>) {
        (self.name@, self.description@, self.image_url@)
    }
}

impl Service {
    /// Builds an entry from its texts.
    pub fn new(name: &str, description: &str, image_url: &str) -> (r: Service)
        ensures
            r.deep_view() == (name@, description@, image_url@),
    {
        Service {
            name: String::from_str(name),
            description: String::from_str(description),
            image_url: String::from_str(image_url),
        }
    }

    pub fn name(&self) -> (r: &str)
        ensures
            r@ == self.name@,
    {
        self.name.as_str()
    }

    pub fn description(&self) -> (r: &str)
        ensures
            r@ == self.description@,
    {
        self.description.as_str()
    }

    pub fn image_url(&self) -> (r: &str)
        ensures
            r@ == self.image_url@,
    {
        self.image_url.as_str()
    }
}

/// The services offered, in order: name, description, image.
pub open spec fn service_listing() -> Seq<(Seq<char>, Seq<char>, Seq<char>)> {
    seq![
        ("Workstations for Creators"@, "Take your creative projects to new heights with meticulously designed workstations,  to support leading software like Maya, Redshift, Autodesk, Adobe Premiere, and Vegas. Coastal Configurations specializes in creating advanced computing solutions that cater specifically to the demands of high-end rendering and editing software. Each workstation is built to offer a seamless, quiet computing experience, ensuring reliability and top-tier performance, allowing you to focus on crafting stunning visuals and animations with your preferred software suite."@, "services/workstations.jpg"@),
        ("3D Scanning Workstations"@, "Enhance your remote sensing tasks with a bespoke 3D Scanning Workstation from Coastal Configurations, crafted with your specific software requirements in mind. Coastal Configurations presents computing solutions dedicated to laser scanning, photogrammetry, and point cloud management, designed to streamline your workflow and optimize your focus on project execution."@, "services/scanning.jpg"@),
        ("Commercial Computing Solutions"@, "No matter your the size of your project, type of hardware, or computing power needed, Coastal has got you covered when it comes to your commercial productivity needs. Sourcing the most up to date systems, peripherals, audio video, and collaboration technologies, there is not a solution we cannot solve for. Learn how you can enhance your workplace productivity with business solutions from Coastal Configurations."@, "services/commercial.jpg"@),
        ("Gaming Systems"@, "Coastal Configurations Gaming PCs are engineered to deliver unparalleled performance for all your favorite titles. Whether you're battling in the latest AAA games, exploring vast open worlds, or competing in high-stakes eSports, our gaming PCs are built to exceed expectations. Combining cutting-edge design with silent, reliable, and powerful components, each system is carefully assembled by our expert technicians in the USA, tailored to ensure you stay ahead of the game with smooth, lag-free gameplay and breathtaking visuals."@, "services/gaming.jpg"@),
    ]
}

/// Serves the listing of services.
pub struct ServiceQuery;

impl ServiceQuery {
    /// The services offered.
    pub fn get_services() -> (r: Vec<Service>)
        ensures
            r.deep_view() == service_listing(),
    {
        let mut r: Vec<Service> = Vec::new();
        r.push(Service::new(
            "Workstations for Creators",
            "Take your creative projects to new heights with meticulously designed workstations,  to support leading software like Maya, Redshift, Autodesk, Adobe Premiere, and Vegas. Coastal Configurations specializes in creating advanced computing solutions that cater specifically to the demands of high-end rendering and editing software. Each workstation is built to offer a seamless, quiet computing experience, ensuring reliability and top-tier performance, allowing you to focus on crafting stunning visuals and animations with your preferred software suite.",
            "services/workstations.jpg",
        ));
        r.push(Service::new(
            "3D Scanning Workstations",
            "Enhance your remote sensing tasks with a bespoke 3D Scanning Workstation from Coastal Configurations, crafted with your specific software requirements in mind. Coastal Configurations presents computing solutions dedicated to laser scanning, photogrammetry, and point cloud management, designed to streamline your workflow and optimize your focus on project execution.",
            "services/scanning.jpg",
        ));
        r.push(Service::new(
            "Commercial Computing Solutions",
            "No matter your the size of your project, type of hardware, or computing power needed, Coastal has got you covered when it comes to your commercial productivity needs. Sourcing the most up to date systems, peripherals, audio video, and collaboration technologies, there is not a solution we cannot solve for. Learn how you can enhance your workplace productivity with business solutions from Coastal Configurations.",
            "services/commercial.jpg",
        ));
        r.push(Service::new(
            "Gaming Systems",
            "Coastal Configurations Gaming PCs are engineered to deliver unparalleled performance for all your favorite titles. Whether you're battling in the latest AAA games, exploring vast open worlds, or competing in high-stakes eSports, our gaming PCs are built to exceed expectations. Combining cutting-edge design with silent, reliable, and powerful components, each system is carefully assembled by our expert technicians in the USA, tailored to ensure you stay ahead of the game with smooth, lag-free gameplay and breathtaking visuals.",
            "services/gaming.jpg",
        ));
        assert(r.deep_view() =~= service_listing());
        r
    }
}

/// A software product supported.
#[derive(Debug)]
pub struct Software {
    pub name: String,
    pub description: String,
    pub image_url: String,
}

impl DeepView for Software {
    type V = (Seq<char>, Seq<char>, Seq<char>);

    open spec fn deep_view(&self) -> (Seq<char>, Seq<char>, Seq<char>) {
        (self.name@, self.description@, self.image_url@)
    }
}

impl Software {
    /// Builds an entry from its texts.
    pub fn new(name: &str, description: &str, image_url: &str) -> (r: Software)
        ensures
            r.deep_view() == (name@, description@, image_url@),
    {
        Software {
            name: String::from_str(name),
            description: String::from_str(description),
            image_url: String::from_str(image_url),
        }
    }

    pub fn name(&self) -> (r: &str)
        ensures
            r@ == self.name@,
    {
        self.name.as_str()
    }

    pub fn description(&self) -> (r: &str)
        ensures
            r@ == self.description@,
    {
        self.description.as_str()
    }

    pub fn image_url(&self) -> (r: &str)
        ensures
            r@ == self.image_url@,
    {
        self.image_url.as_str()
    }
}

/// The software products supported, in order: name, description, image.
pub open spec fn software_listing() -> Seq<(Seq<char>, Seq<char>, Seq<char>)> {
    seq![
        ("PIX4D"@, "Description for PIX4D"@, "software/pix4d.png"@),
        ("Autodesk"@, "Description for Autodesk"@, "software/autodesk.png"@),
        ("RenderMan"@, "Description for RenderMan"@, "software/renderman.png"@),
        ("Blender"@, "Description for Blender"@, "software/blender.png"@),
    ]
}

/// Serves the listing of software products.
pub struct SoftwareQuery;

impl SoftwareQuery {
    /// The software products supported.
    pub fn get_softwares() -> (r: Vec<Software>)
        ensures
            r.deep_view() == software_listing(),
    {
        let mut r: Vec<Software> = Vec::new();
        r.push(Software::new(
            "PIX4D",
            "Description for PIX4D",
            "software/pix4d.png",
        ));
        r.push(Software::new(
            "Autodesk",
            "Description for Autodesk",
            "software/autodesk.png",
        ));
        r.push(Software::new(
            "RenderMan",
            "Description for RenderMan",
            "software/renderman.png",
        ));
        r.push(Software::new(
            "Blender",
            "Description for Blender",
            "software/blender.png",
        ));
        assert(r.deep_view() =~= software_listing());
        r
    }
}

} // verus!
