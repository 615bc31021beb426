use vstd::prelude::*;

verus! {

/// Severity bit the graphics API uses for verbose diagnostic messages.
pub const DEBUG_SEVERITY_VERBOSE: u32 = 0x1;

/// Severity bit for informational messages.
pub const DEBUG_SEVERITY_INFO: u32 = 0x10;

/// Severity bit for warnings.
pub const DEBUG_SEVERITY_WARNING: u32 = 0x100;

/// Severity bit for errors.
pub const DEBUG_SEVERITY_ERROR: u32 = 0x1000;

/// Category bit for general messages.
pub const DEBUG_TYPE_GENERAL: u32 = 0x1;

/// Category bit for validation messages.
pub const DEBUG_TYPE_VALIDATION: u32 = 0x2;

/// Category bit for performance messages.
pub const DEBUG_TYPE_PERFORMANCE: u32 = 0x4;

/// Whether this layer asks for diagnostic messaging by default. The layer is a
/// development aid and always does; `create_instance_info` takes the choice as
/// an explicit argument, so a caller that wants a quiet instance passes its
/// own flag there.
pub fn is_debug_mode() -> (debug: bool)
    ensures
        debug,
{
    true
}

/// Which diagnostic severities and categories a debug messenger subscribes
/// to. The raw structure handed to the graphics API is built from this by the
/// caller, which also attaches the message handler.
#[derive(Clone, Copy, Debug, PartialEq, Eq, Structural)]
pub struct DebugMessengerInfo {
    pub verbose_severity: bool,
    pub info_severity: bool,
    pub warning_severity: bool,
    pub error_severity: bool,
    pub general_type: bool,
    pub validation_type: bool,
    pub performance_type: bool,
}

/// The one subscription this layer uses: exactly the warning and error
/// severities, and exactly the general, validation and performance categories.
pub open spec fn spec_debug_messenger_info() -> DebugMessengerInfo {
    DebugMessengerInfo {
        verbose_severity: false,
        info_severity: false,
        warning_severity: true,
        error_severity: true,
        general_type: true,
        validation_type: true,
        performance_type: true,
    }
}

/// Build the messenger subscription: warnings and errors, in every category.
pub fn create_debug_messenger_info() -> (info: DebugMessengerInfo)
    ensures
        info == spec_debug_messenger_info(),
{
    DebugMessengerInfo {
        verbose_severity: false,
        info_severity: false,
        warning_severity: true,
        error_severity: true,
        general_type: true,
        validation_type: true,
        performance_type: true,
    }
}

/// The severity mask of a subscription, in the graphics API's bit encoding.
pub open spec fn spec_severity_mask(info: DebugMessengerInfo) -> u32 {
    (if info.verbose_severity {
        DEBUG_SEVERITY_VERBOSE
    } else {
        0
    }) | (if info.info_severity {
        DEBUG_SEVERITY_INFO
    } else {
        0
    }) | (if info.warning_severity {
        DEBUG_SEVERITY_WARNING
    } else {
        0
    }) | (if info.error_severity {
        DEBUG_SEVERITY_ERROR
    } else {
        0
    })
}

/// The category mask of a subscription, in the graphics API's bit encoding.
pub open spec fn spec_type_mask(info: DebugMessengerInfo) -> u32 {
    (if info.general_type {
        DEBUG_TYPE_GENERAL
    } else {
        0
    }) | (if info.validation_type {
        DEBUG_TYPE_VALIDATION
    } else {
        0
    }) | (if info.performance_type {
        DEBUG_TYPE_PERFORMANCE
    } else {
        0
    })
}

impl DebugMessengerInfo {
    /// The severity bits to put in the raw create-info structure.
    pub fn severity_mask(&self) -> (mask: u32)
        ensures
            mask == spec_severity_mask(*self),
    {
        (if self.verbose_severity {
            DEBUG_SEVERITY_VERBOSE
        } else {
            0
        }) | (if self.info_severity {
            DEBUG_SEVERITY_INFO
        } else {
            0
        }) | (if self.warning_severity {
            DEBUG_SEVERITY_WARNING
        } else {
            0
        }) | (if self.error_severity {
            DEBUG_SEVERITY_ERROR
        } else {
            0
        })
    }

    /// The category bits to put in the raw create-info structure.
    pub fn type_mask(&self) -> (mask: u32)
        ensures
            mask == spec_type_mask(*self),
    {
        (if self.general_type {
            DEBUG_TYPE_GENERAL
        } else {
            0
        }) | (if self.validation_type {
            DEBUG_TYPE_VALIDATION
        } else {
            0
        }) | (if self.performance_type {
            DEBUG_TYPE_PERFORMANCE
        } else {
            0
        })
    }
}

/// The tag a diagnostic message is printed with for its severity. Severities
/// are tagged one at a time, as the graphics API delivers them.
pub open spec fn spec_severity_label(message_severity: u32) -> Seq<char> {
    if message_severity == DEBUG_SEVERITY_VERBOSE {
        "[Verbose]"@
    } else if message_severity == DEBUG_SEVERITY_WARNING {
        "[Warning]"@
    } else if message_severity == DEBUG_SEVERITY_ERROR {
        "[Error]"@
    } else if message_severity == DEBUG_SEVERITY_INFO {
        "[Info]"@
    } else {
        "[Unknown]"@
    }
}

/// Pick the printed tag for a message's severity bits.
pub fn debug_severity_label(message_severity: u32) -> (label: &'static str)
    ensures
        label@ == spec_severity_label(message_severity),
{
    if message_severity == DEBUG_SEVERITY_VERBOSE {
        "[Verbose]"
    } else if message_severity == DEBUG_SEVERITY_WARNING {
        "[Warning]"
    } else if message_severity == DEBUG_SEVERITY_ERROR {
        "[Error]"
    } else if message_severity == DEBUG_SEVERITY_INFO {
        "[Info]"
    } else {
        "[Unknown]"
    }
}

/// The tag a diagnostic message is printed with for its category.
pub open spec fn spec_type_label(message_type: u32) -> Seq<char> {
    if message_type == DEBUG_TYPE_GENERAL {
        "[General]"@
    } else if message_type == DEBUG_TYPE_PERFORMANCE {
        "[Performance]"@
    } else if message_type == DEBUG_TYPE_VALIDATION {
        "[Validation]"@
    } else {
        "[Unknown]"@
    }
}

/// Pick the printed tag for a message's category bits.
pub fn debug_type_label(message_type: u32) -> (label: &'static str)
    ensures
        label@ == spec_type_label(message_type),
{
    if message_type == DEBUG_TYPE_GENERAL {
        "[General]"
    } else if message_type == DEBUG_TYPE_PERFORMANCE {
        "[Performance]"
    } else if message_type == DEBUG_TYPE_VALIDATION {
        "[Validation]"
    } else {
        "[Unknown]"
    }
}

} // verus!
