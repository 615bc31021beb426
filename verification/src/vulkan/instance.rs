use vstd::prelude::*;

use crate::vulkan::debug::{create_debug_messenger_info, spec_debug_messenger_info,
    DebugMessengerInfo};
use crate::vulkan::validation::{is_validation_layers_supported, names_view,
    spec_validation_layers_supported};

verus! {

/// Why instance planning failed.
#[derive(Clone, Copy, Debug, PartialEq, Eq, Structural)]
pub enum InstanceError {
    /// A requested validation layer is absent, or the driver reported no
    /// layers at all.
    ValidationLayersUnsupported,
}

impl InstanceError {
    /// The descriptive message surfaced to the operator.
    pub fn message(&self) -> (text: &'static str)
        ensures
            text@ == "Requested validation layers are not supported"@,
    {
        match self {
            InstanceError::ValidationLayersUnsupported => "Requested validation layers are not supported",
        }
    }
}

/// The graphics API's packed version encoding: major in the top ten bits,
/// minor in the next ten, patch in the low twelve.
pub open spec fn spec_make_version(major: u32, minor: u32, patch: u32) -> u32 {
    (major << 22) | (minor << 12) | patch
}

/// Pack a major/minor/patch triple into the graphics API's version encoding.
pub fn make_version(major: u32, minor: u32, patch: u32) -> (version: u32)
    ensures
        version == spec_make_version(major, minor, patch),
{
    (major << 22) | (minor << 12) | patch
}

/// Application and engine metadata for instance creation.
pub struct ApplicationInfo {
    pub application_name: String,
    pub application_version: u32,
    pub engine_name: String,
    pub engine_version: u32,
    pub api_version: u32,
}

/// Build the application metadata: the given names, version one for both the
/// application and the engine, and the API revision this layer targets.
pub fn create_application_info(application_name: &str, engine_name: &str) -> (info:
    ApplicationInfo)
    ensures
        info.application_name@ == application_name@,
        info.engine_name@ == engine_name@,
        info.application_version == spec_make_version(1, 0, 0),
        info.engine_version == spec_make_version(1, 0, 0),
        info.api_version == spec_make_version(1, 0, 92),
{
    ApplicationInfo {
        application_name: application_name.to_owned(),
        application_version: make_version(1, 0, 0),
        engine_name: engine_name.to_owned(),
        engine_version: make_version(1, 0, 0),
        api_version: make_version(1, 0, 92),
    }
}

/// Everything the caller needs to request an instance from the graphics API:
/// metadata, the layers to enable, the extensions to enable, and the debug
/// messenger subscription to chain in, when one is wanted.
pub struct InstanceCreateInfo {
    pub application_info: ApplicationInfo,
    pub enabled_layer_names: Vec<String>,
    pub enabled_extension_names: Vec<String>,
    pub debug_messenger: Option<DebugMessengerInfo>,
}

/// Plan an instance: refuse when a requested validation layer is not among
/// the available ones; otherwise assemble the metadata, the layer list, the
/// fixed extension list (surface and debug messaging), and, when `debug_mode`
/// is set, the debug messenger subscription.
pub fn create_instance_info(
    application_name: &str,
    engine_name: &str,
    validation_layers: Vec<String>,
    available_layers: &Vec<String>,
    debug_mode: bool,
) -> (result: Result<InstanceCreateInfo, InstanceError>)
    ensures
        result is Ok <==> spec_validation_layers_supported(
            names_view(validation_layers@),
            names_view(available_layers@),
        ),
        result is Err ==> result->Err_0 == InstanceError::ValidationLayersUnsupported,
        result is Ok ==> {
            let info = result->Ok_0;
            &&& info.application_info.application_name@ == application_name@
            &&& info.application_info.engine_name@ == engine_name@
            &&& info.application_info.application_version == spec_make_version(1, 0, 0)
            &&& info.application_info.engine_version == spec_make_version(1, 0, 0)
            &&& info.application_info.api_version == spec_make_version(1, 0, 92)
            &&& info.enabled_layer_names@ == validation_layers@
            &&& info.enabled_extension_names@.len() == 2
            &&& info.enabled_extension_names@[0]@ == "VK_KHR_surface"@
            &&& info.enabled_extension_names@[1]@ == "VK_EXT_debug_utils"@
            &&& info.debug_messenger == (if debug_mode {
                Option::Some(spec_debug_messenger_info())
            } else {
                Option::<DebugMessengerInfo>::None
            })
        },
{
    if !is_validation_layers_supported(&validation_layers, available_layers) {
        return Result::Err(InstanceError::ValidationLayersUnsupported);
    }
    let application_info = create_application_info(application_name, engine_name);
    let mut enabled_extension_names: Vec<String> = Vec::new();
    enabled_extension_names.push("VK_KHR_surface".to_owned());
    enabled_extension_names.push("VK_EXT_debug_utils".to_owned());
    let debug_messenger: Option<DebugMessengerInfo> = if debug_mode {
        Option::Some(create_debug_messenger_info())
    } else {
        Option::None
    };
    Result::Ok(
        InstanceCreateInfo {
            application_info,
            enabled_layer_names: validation_layers,
            enabled_extension_names,
            debug_messenger,
        },
    )
}

} // verus!
