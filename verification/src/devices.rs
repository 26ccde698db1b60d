use vstd::prelude::*;

verus! {

/// A commissioned device as listed by the registry.
#[derive(Clone, Debug)]
pub struct DeviceDto {
    pub node_id: u64,
    pub name: String,
    pub address: String,
}

/// What a probe learns of a device.
#[derive(Clone, Debug)]
pub struct DeviceInfoDto {
    pub node_id: u64,
    pub name: String,
    pub address: String,
    pub vendor_name: String,
    pub product_name: String,
    pub hw_version: String,
    pub sw_version: String,
    pub has_aggregator: bool,
}

impl DeviceInfoDto {
    /// A field-by-field copy.
    pub fn duplicate(&self) -> (r: DeviceInfoDto)
        ensures
            r == *self,
    {
        DeviceInfoDto {
            node_id: self.node_id,
            name: self.name.clone(),
            address: self.address.clone(),
            vendor_name: self.vendor_name.clone(),
            product_name: self.product_name.clone(),
            hw_version: self.hw_version.clone(),
            sw_version: self.sw_version.clone(),
            has_aggregator: self.has_aggregator,
        }
    }

    /// A cached probe result with the registry's current name and address:
    /// those two may change, the rest was read from the device.
    pub fn with_identity(self, name: String, address: String) -> (r: DeviceInfoDto)
        ensures
            r == (DeviceInfoDto { name, address, ..self }),
    {
        DeviceInfoDto { name, address, ..self }
    }
}

} // verus!
