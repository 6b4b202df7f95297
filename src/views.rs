//! The views of the catalogue's records that the API serves.
use vstd::prelude::*;

verus! {

/// The text of an optional text.
pub open spec fn opt_text_of(o: Option<String>) -> Option<Seq<char>> {
    match o {
        Some(s) => Some(s@),
        None => None,
    }
}

/// The text of an optional borrowed text.
pub open spec fn opt_str_of(o: Option<&str>) -> Option<Seq<char>> {
    match o {
        Some(s) => Some(s@),
        None => None,
    }
}

/// Borrows an optional text.
fn as_opt_str(o: &Option<String>) -> (r: Option<&str>)
    ensures
        opt_str_of(r) == opt_text_of(*o),
{
    match o {
        Some(s) => Some(s.as_str()),
        None => None,
    }
}

/// The root query of the parts API.
pub struct RootQuery;

impl RootQuery {
    /// The version of the API.
    #[allow(non_snake_case)]
    pub fn apiVersion() -> (r: &'static str)
        ensures
            r@ == "1.0"@,
    {
        "1.0"
    }
}

/// A category of parts.
#[derive(Debug)]
pub struct CategoryGraphQL {
    pub id: i32,
    pub name: String,
    pub description: Option<String>,
}

impl CategoryGraphQL {
    pub fn id(&self) -> (r: i32)
        ensures
            r == self.id,
    {
        self.id
    }

    pub fn name(&self) -> (r: &str)
        ensures
            r@ == self.name@,
    {
        self.name.as_str()
    }

    pub fn description(&self) -> (r: Option<&str>)
        ensures
            opt_str_of(r) == opt_text_of(self.description),
    {
        as_opt_str(&self.description)
    }
}

/// A manufacturer of parts.
#[derive(Debug)]
pub struct ManufacturerGraphQL {
    pub id: i32,
    pub name: String,
    pub website: Option<String>,
}

impl ManufacturerGraphQL {
    pub fn id(&self) -> (r: i32)
        ensures
            r == self.id,
    {
        self.id
    }

    pub fn name(&self) -> (r: &str)
        ensures
            r@ == self.name@,
    {
        self.name.as_str()
    }

    pub fn website(&self) -> (r: Option<&str>)
        ensures
            opt_str_of(r) == opt_text_of(self.website),
    {
        as_opt_str(&self.website)
    }
}

/// A part, with its prices and specifications as text.
#[derive(Debug)]
pub struct PartGraphQL {
    pub id: i32,
    pub manufacturer_id: Option<i32>,
    pub category_id: Option<i32>,
    pub name: String,
    pub model: String,
    pub price: Option<String>,
    pub common_specifications: Option<String>,
}

impl PartGraphQL {
    pub fn id(&self) -> (r: i32)
        ensures
            r == self.id,
    {
        self.id
    }

    pub fn name(&self) -> (r: &str)
        ensures
            r@ == self.name@,
    {
        self.name.as_str()
    }

    pub fn model(&self) -> (r: &str)
        ensures
            r@ == self.model@,
    {
        self.model.as_str()
    }

    pub fn price(&self) -> (r: Option<&str>)
        ensures
            opt_str_of(r) == opt_text_of(self.price),
    {
        as_opt_str(&self.price)
    }

    #[allow(non_snake_case)]
    pub fn commonSpecifications(&self) -> (r: Option<&str>)
        ensures
            opt_str_of(r) == opt_text_of(self.common_specifications),
    {
        as_opt_str(&self.common_specifications)
    }
}

/// The specifications of a processor; decimals as text.
#[derive(Debug)]
pub struct CpuSpecGraphQL {
    pub part_id: i32,
    pub cores: Option<i32>,
    pub threads: Option<i32>,
    pub base_clock_speed: Option<String>,
    pub max_boost_clock_speed: Option<String>,
    pub tdp: Option<i32>,
    pub socket_type: Option<String>,
    pub cache_size: Option<String>,
    pub integrated_graphics: Option<bool>,
    pub process_technology: Option<String>,
}

/// The specifications of a graphics card; decimals as text.
#[derive(Debug)]
pub struct GpuSpecGraphQL {
    pub part_id: i32,
    pub cuda_cores: Option<i32>,
    pub vram_size: Option<String>,
    pub vram_type: Option<String>,
    pub tdp: Option<i32>,
    pub memory_bandwidth: Option<String>,
    pub interface: Option<String>,
    pub form_factor: Option<String>,
    pub outputs: Option<Vec<Option<String>>>,
    pub length: Option<i32>,
}

impl GpuSpecGraphQL {
    pub fn part_id(&self) -> (r: i32)
        ensures
            r == self.part_id,
    {
        self.part_id
    }

    pub fn cuda_cores(&self) -> (r: Option<i32>)
        ensures
            r == self.cuda_cores,
    {
        self.cuda_cores
    }

    pub fn vram_size(&self) -> (r: Option<&str>)
        ensures
            opt_str_of(r) == opt_text_of(self.vram_size),
    {
        as_opt_str(&self.vram_size)
    }

    pub fn vram_type(&self) -> (r: Option<&str>)
        ensures
            opt_str_of(r) == opt_text_of(self.vram_type),
    {
        as_opt_str(&self.vram_type)
    }

    pub fn tdp(&self) -> (r: Option<i32>)
        ensures
            r == self.tdp,
    {
        self.tdp
    }

    pub fn memory_bandwidth(&self) -> (r: Option<&str>)
        ensures
            opt_str_of(r) == opt_text_of(self.memory_bandwidth),
    {
        as_opt_str(&self.memory_bandwidth)
    }

    pub fn interface(&self) -> (r: Option<&str>)
        ensures
            opt_str_of(r) == opt_text_of(self.interface),
    {
        as_opt_str(&self.interface)
    }

    pub fn form_factor(&self) -> (r: Option<&str>)
        ensures
            opt_str_of(r) == opt_text_of(self.form_factor),
    {
        as_opt_str(&self.form_factor)
    }

    pub fn outputs(&self) -> (r: Option<&[Option<String>]>)
        ensures
            match self.outputs {
                Some(v) => r matches Some(s) && s@ == v@,
                None => r is None,
            },
    {
        match &self.outputs {
            Some(v) => Some(v.as_slice()),
            None => None,
        }
    }

    pub fn length(&self) -> (r: Option<i32>)
        ensures
            r == self.length,
    {
        self.length
    }
}

/// The specifications of a memory kit; decimals as text.
#[derive(Debug)]
pub struct MemorySpecGraphQL {
    pub part_id: i32,
    pub capacity: Option<i32>,
    pub speed: Option<i32>,
    pub memory_type: Option<String>,
    pub ecc: Option<bool>,
    pub buffered: Option<bool>,
    pub cas_latency: Option<String>,
    pub form_factor: Option<String>,
    pub rgb_lighting: Option<bool>,
    pub kit_configuration: Option<String>,
    pub voltage: Option<String>,
    pub heat_spreader: Option<bool>,
}

impl MemorySpecGraphQL {
    pub fn part_id(&self) -> (r: i32)
        ensures
            r == self.part_id,
    {
        self.part_id
    }

    pub fn capacity(&self) -> (r: Option<i32>)
        ensures
            r == self.capacity,
    {
        self.capacity
    }

    pub fn speed(&self) -> (r: Option<i32>)
        ensures
            r == self.speed,
    {
        self.speed
    }

    pub fn memory_type(&self) -> (r: Option<&str>)
        ensures
            opt_str_of(r) == opt_text_of(self.memory_type),
    {
        as_opt_str(&self.memory_type)
    }

    pub fn ecc(&self) -> (r: Option<bool>)
        ensures
            r == self.ecc,
    {
        self.ecc
    }

    pub fn buffered(&self) -> (r: Option<bool>)
        ensures
            r == self.buffered,
    {
        self.buffered
    }

    pub fn cas_latency(&self) -> (r: Option<&str>)
        ensures
            opt_str_of(r) == opt_text_of(self.cas_latency),
    {
        as_opt_str(&self.cas_latency)
    }

    pub fn form_factor(&self) -> (r: Option<&str>)
        ensures
            opt_str_of(r) == opt_text_of(self.form_factor),
    {
        as_opt_str(&self.form_factor)
    }

    pub fn rgb_lighting(&self) -> (r: Option<bool>)
        ensures
            r == self.rgb_lighting,
    {
        self.rgb_lighting
    }

    pub fn kit_configuration(&self) -> (r: Option<&str>)
        ensures
            opt_str_of(r) == opt_text_of(self.kit_configuration),
    {
        as_opt_str(&self.kit_configuration)
    }

    pub fn voltage(&self) -> (r: Option<&str>)
        ensures
            opt_str_of(r) == opt_text_of(self.voltage),
    {
        as_opt_str(&self.voltage)
    }

    pub fn heat_spreader(&self) -> (r: Option<bool>)
        ensures
            r == self.heat_spreader,
    {
        self.heat_spreader
    }
}

/// The specifications of a storage drive.
#[derive(Debug)]
pub struct StorageSpecGraphQL {
    pub part_id: i32,
    pub capacity: Option<i32>,
    pub interface: Option<String>,
    pub form_factor: Option<String>,
    pub sequential_read_speed: Option<i32>,
    pub sequential_write_speed: Option<i32>,
}

} // verus!
