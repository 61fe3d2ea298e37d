use vstd::prelude::*;
use vstd::string::StringExecFns;

verus! {

/// One manufacturer-data entry of an advertisement: the vendor (company)
/// identifier together with its raw byte payload.
pub struct ManufacturerEntry {
    pub company_id: u16,
    pub payload: Vec<u8>,
}

#[verifier::ext_equal]
pub ghost struct ManufacturerEntryV {
    pub company_id: u16,
    pub payload: Seq<u8>,
}

impl View for ManufacturerEntry {
    type V = ManufacturerEntryV;

    open spec fn view(&self) -> ManufacturerEntryV {
        ManufacturerEntryV { company_id: self.company_id, payload: self.payload@ }
    }
}

/// One service-data entry of an advertisement: the service identifier
/// together with its raw byte payload.
pub struct ServiceDataEntry {
    pub service: u128,
    pub payload: Vec<u8>,
}

#[verifier::ext_equal]
pub ghost struct ServiceDataEntryV {
    pub service: u128,
    pub payload: Seq<u8>,
}

impl View for ServiceDataEntry {
    type V = ServiceDataEntryV;

    open spec fn view(&self) -> ServiceDataEntryV {
        ServiceDataEntryV { service: self.service, payload: self.payload@ }
    }
}

/// The advertisement-derived metadata of one device, as resolved at
/// discovery time. Service identifiers are carried as their 128-bit values.
pub struct PropertySet {
    pub local_name: Option<String>,
    pub tx_power_level: Option<i16>,
    pub address: String,
    pub rssi: Option<i16>,
    pub manufacturer_data: Vec<ManufacturerEntry>,
    pub services: Vec<u128>,
    pub service_data: Vec<ServiceDataEntry>,
}

#[verifier::ext_equal]
pub ghost struct PropertySetV {
    pub local_name: Option<Seq<char>>,
    pub tx_power_level: Option<i16>,
    pub address: Seq<char>,
    pub rssi: Option<i16>,
    pub manufacturer_data: Seq<ManufacturerEntryV>,
    pub services: Seq<u128>,
    pub service_data: Seq<ServiceDataEntryV>,
}

impl View for PropertySet {
    type V = PropertySetV;

    open spec fn view(&self) -> PropertySetV {
        PropertySetV {
            local_name: match self.local_name {
                Some(n) => Some(n@),
                None => None,
            },
            tx_power_level: self.tx_power_level,
            address: self.address@,
            rssi: self.rssi,
            manufacturer_data: self.manufacturer_data@.map_values(|e: ManufacturerEntry| e@),
            services: self.services@,
            service_data: self.service_data@.map_values(|e: ServiceDataEntry| e@),
        }
    }
}

/// One record per distinct discovered identity; created once at first
/// discovery, never mutated afterwards.
pub struct DeviceInfo {
    pub id: String,
    pub local_name: Option<String>,
    pub tx_power_level: Option<i16>,
    pub address: String,
    pub rssi: Option<i16>,
    pub manufacturer_data: Vec<ManufacturerEntry>,
    pub services: Vec<u128>,
    pub service_data: Vec<ServiceDataEntry>,
}

#[verifier::ext_equal]
pub ghost struct DeviceInfoV {
    pub id: Seq<char>,
    pub local_name: Option<Seq<char>>,
    pub tx_power_level: Option<i16>,
    pub address: Seq<char>,
    pub rssi: Option<i16>,
    pub manufacturer_data: Seq<ManufacturerEntryV>,
    pub services: Seq<u128>,
    pub service_data: Seq<ServiceDataEntryV>,
}

impl View for DeviceInfo {
    type V = DeviceInfoV;

    open spec fn view(&self) -> DeviceInfoV {
        DeviceInfoV {
            id: self.id@,
            local_name: match self.local_name {
                Some(n) => Some(n@),
                None => None,
            },
            tx_power_level: self.tx_power_level,
            address: self.address@,
            rssi: self.rssi,
            manufacturer_data: self.manufacturer_data@.map_values(|e: ManufacturerEntry| e@),
            services: self.services@,
            service_data: self.service_data@.map_values(|e: ServiceDataEntry| e@),
        }
    }
}

/// The link-layer address reported when a device exposes no properties.
pub open spec fn zero_address() -> Seq<char> {
    "00:00:00:00:00:00"@
}

/// The property set substituted when a lookup yields no properties:
/// every optional field absent, every collection empty.
pub open spec fn empty_properties() -> PropertySetV {
    PropertySetV {
        local_name: None,
        tx_power_level: None,
        address: zero_address(),
        rssi: None,
        manufacturer_data: Seq::empty(),
        services: Seq::empty(),
        service_data: Seq::empty(),
    }
}

/// The record built from an identity and a resolved property set.
pub open spec fn device_of(id: Seq<char>, props: PropertySetV) -> DeviceInfoV {
    DeviceInfoV {
        id: id,
        local_name: props.local_name,
        tx_power_level: props.tx_power_level,
        address: props.address,
        rssi: props.rssi,
        manufacturer_data: props.manufacturer_data,
        services: props.services,
        service_data: props.service_data,
    }
}

pub open spec fn props_view(props: Option<PropertySet>) -> Option<PropertySetV> {
    match props {
        Some(p) => Some(p@),
        None => None,
    }
}

/// The record built from an identity and the outcome of a property lookup:
/// a missing property set is replaced by the empty default rather than
/// failing the run.
pub open spec fn device_of_lookup(id: Seq<char>, props: Option<PropertySetV>) -> DeviceInfoV {
    match props {
        Some(p) => device_of(id, p),
        None => device_of(id, empty_properties()),
    }
}

/// The views of a sequence of device records.
pub open spec fn device_views(s: Seq<DeviceInfo>) -> Seq<DeviceInfoV> {
    s.map_values(|d: DeviceInfo| d@)
}

impl PropertySet {
    /// The default substituted when a device exposes no properties.
    pub fn empty() -> (p: PropertySet)
        ensures
            p@ == empty_properties(),
    {
        PropertySet {
            local_name: None,
            tx_power_level: None,
            address: String::from_str("00:00:00:00:00:00"),
            rssi: None,
            manufacturer_data: Vec::new(),
            services: Vec::new(),
            service_data: Vec::new(),
        }
    }
}

impl DeviceInfo {
    /// Builds the record for a newly discovered identity from the outcome of
    /// its property lookup, substituting the empty default when the lookup
    /// found no properties.
    pub fn from_lookup(id: String, props: Option<PropertySet>) -> (d: DeviceInfo)
        ensures
            d@ == device_of_lookup(id@, props_view(props)),
    {
        let p = match props {
            Some(p) => p,
            None => PropertySet::empty(),
        };
        DeviceInfo {
            id: id,
            local_name: p.local_name,
            tx_power_level: p.tx_power_level,
            address: p.address,
            rssi: p.rssi,
            manufacturer_data: p.manufacturer_data,
            services: p.services,
            service_data: p.service_data,
        }
    }
}

fn clone_opt_string(o: &Option<String>) -> (r: Option<String>)
    ensures
        r == *o,
{
    match o {
        Some(s) => Some(s.clone()),
        None => None,
    }
}

fn clone_bytes(v: &Vec<u8>) -> (r: Vec<u8>)
    ensures
        r@ == v@,
{
    let mut r: Vec<u8> = Vec::new();
    let mut i: usize = 0;
    while i < v.len()
        invariant
            i <= v.len(),
            r@ == v@.take(i as int),
        decreases v.len() - i,
    {
        r.push(v[i]);
        i = i + 1;
    }
    proof {
        assert(v@.take(v.len() as int) == v@);
    }
    r
}

fn clone_services(v: &Vec<u128>) -> (r: Vec<u128>)
    ensures
        r@ == v@,
{
    let mut r: Vec<u128> = Vec::new();
    let mut i: usize = 0;
    while i < v.len()
        invariant
            i <= v.len(),
            r@ == v@.take(i as int),
        decreases v.len() - i,
    {
        r.push(v[i]);
        i = i + 1;
    }
    proof {
        assert(v@.take(v.len() as int) == v@);
    }
    r
}

impl Clone for ManufacturerEntry {
    fn clone(&self) -> (res: Self)
        ensures
            res@ == self@,
    {
        ManufacturerEntry { company_id: self.company_id, payload: clone_bytes(&self.payload) }
    }
}

impl Clone for ServiceDataEntry {
    fn clone(&self) -> (res: Self)
        ensures
            res@ == self@,
    {
        ServiceDataEntry { service: self.service, payload: clone_bytes(&self.payload) }
    }
}

fn clone_manufacturer_data(v: &Vec<ManufacturerEntry>) -> (r: Vec<ManufacturerEntry>)
    ensures
        r@.map_values(|e: ManufacturerEntry| e@) == v@.map_values(|e: ManufacturerEntry| e@),
{
    let mut r: Vec<ManufacturerEntry> = Vec::new();
    let mut i: usize = 0;
    while i < v.len()
        invariant
            i <= v.len(),
            r@.len() == i,
            forall|j: int| 0 <= j < i ==> #[trigger] r@[j]@ == v@[j]@,
        decreases v.len() - i,
    {
        r.push(v[i].clone());
        i = i + 1;
    }
    r
}

fn clone_service_data(v: &Vec<ServiceDataEntry>) -> (r: Vec<ServiceDataEntry>)
    ensures
        r@.map_values(|e: ServiceDataEntry| e@) == v@.map_values(|e: ServiceDataEntry| e@),
{
    let mut r: Vec<ServiceDataEntry> = Vec::new();
    let mut i: usize = 0;
    while i < v.len()
        invariant
            i <= v.len(),
            r@.len() == i,
            forall|j: int| 0 <= j < i ==> #[trigger] r@[j]@ == v@[j]@,
        decreases v.len() - i,
    {
        r.push(v[i].clone());
        i = i + 1;
    }
    r
}

impl Clone for DeviceInfo {
    fn clone(&self) -> (res: Self)
        ensures
            res@ == self@,
    {
        DeviceInfo {
            id: self.id.clone(),
            local_name: clone_opt_string(&self.local_name),
            tx_power_level: self.tx_power_level,
            address: self.address.clone(),
            rssi: self.rssi,
            manufacturer_data: clone_manufacturer_data(&self.manufacturer_data),
            services: clone_services(&self.services),
            service_data: clone_service_data(&self.service_data),
        }
    }
}

} // verus!
