//! The closed sets of tags that the plugin interface numbers: what a plugin
//! is, which pixel layout it works on, and what a parameter holds.

use vstd::prelude::*;

verus! {

/// The major version of the plugin interface that records are filled for.
pub const FREI0R_MAJOR_VERSION: i32 = 1;

/// Number of a filter: one input, one output.
pub const F0R_PLUGIN_TYPE_FILTER: i32 = 0;

/// Number of a source: no input, one output.
pub const F0R_PLUGIN_TYPE_SOURCE: i32 = 1;

/// Number of a mixer of two inputs.
pub const F0R_PLUGIN_TYPE_MIXER2: i32 = 2;

/// Number of a mixer of three inputs.
pub const F0R_PLUGIN_TYPE_MIXER3: i32 = 3;

/// Number of the pixel layout blue, green, red, alpha.
pub const F0R_COLOR_MODEL_BGRA8888: i32 = 0;

/// Number of the pixel layout red, green, blue, alpha.
pub const F0R_COLOR_MODEL_RGBA8888: i32 = 1;

/// Number of the layout that says nothing of the four bytes of a pixel.
pub const F0R_COLOR_MODEL_PACKED32: i32 = 2;

/// Number of a boolean parameter.
pub const F0R_PARAM_BOOL: i32 = 0;

/// Number of a floating-point parameter.
pub const F0R_PARAM_DOUBLE: i32 = 1;

/// Number of a colour parameter.
pub const F0R_PARAM_COLOR: i32 = 2;

/// Number of a position parameter.
pub const F0R_PARAM_POSITION: i32 = 3;

/// Number of a text parameter.
pub const F0R_PARAM_STRING: i32 = 4;

/// What a plugin is, by the number of frames it reads.
#[derive(Clone, Copy, Debug, PartialEq, Eq, Structural)]
pub enum PluginType {
    Filter,
    Source,
    Mixer2,
    Mixer3,
}

impl PluginType {
    /// The number that the interface gives this plugin type.
    pub open spec fn spec_tag(self) -> i32 {
        match self {
            PluginType::Filter => F0R_PLUGIN_TYPE_FILTER,
            PluginType::Source => F0R_PLUGIN_TYPE_SOURCE,
            PluginType::Mixer2 => F0R_PLUGIN_TYPE_MIXER2,
            PluginType::Mixer3 => F0R_PLUGIN_TYPE_MIXER3,
        }
    }

    #[verifier::when_used_as_spec(spec_tag)]
    pub fn tag(self) -> (tag: i32)
        ensures
            tag == self.spec_tag(),
    {
        match self {
            PluginType::Filter => F0R_PLUGIN_TYPE_FILTER,
            PluginType::Source => F0R_PLUGIN_TYPE_SOURCE,
            PluginType::Mixer2 => F0R_PLUGIN_TYPE_MIXER2,
            PluginType::Mixer3 => F0R_PLUGIN_TYPE_MIXER3,
        }
    }
}

/// The layout of the four bytes of a pixel.
#[derive(Clone, Copy, Debug, PartialEq, Eq, Structural)]
pub enum ColorModel {
    BGRA8888,
    RGBA8888,
    PACKED32,
}

impl ColorModel {
    /// The number that the interface gives this pixel layout.
    pub open spec fn spec_tag(self) -> i32 {
        match self {
            ColorModel::BGRA8888 => F0R_COLOR_MODEL_BGRA8888,
            ColorModel::RGBA8888 => F0R_COLOR_MODEL_RGBA8888,
            ColorModel::PACKED32 => F0R_COLOR_MODEL_PACKED32,
        }
    }

    #[verifier::when_used_as_spec(spec_tag)]
    pub fn tag(self) -> (tag: i32)
        ensures
            tag == self.spec_tag(),
    {
        match self {
            ColorModel::BGRA8888 => F0R_COLOR_MODEL_BGRA8888,
            ColorModel::RGBA8888 => F0R_COLOR_MODEL_RGBA8888,
            ColorModel::PACKED32 => F0R_COLOR_MODEL_PACKED32,
        }
    }
}

/// What a parameter holds.
#[derive(Clone, Copy, Debug, PartialEq, Eq, Structural)]
pub enum ParamType {
    Bool,
    Double,
    Color,
    Position,
    String,
}

impl ParamType {
    /// The number that the interface gives this parameter kind.
    pub open spec fn spec_tag(self) -> i32 {
        match self {
            ParamType::Bool => F0R_PARAM_BOOL,
            ParamType::Double => F0R_PARAM_DOUBLE,
            ParamType::Color => F0R_PARAM_COLOR,
            ParamType::Position => F0R_PARAM_POSITION,
            ParamType::String => F0R_PARAM_STRING,
        }
    }

    #[verifier::when_used_as_spec(spec_tag)]
    pub fn tag(self) -> (tag: i32)
        ensures
            tag == self.spec_tag(),
    {
        match self {
            ParamType::Bool => F0R_PARAM_BOOL,
            ParamType::Double => F0R_PARAM_DOUBLE,
            ParamType::Color => F0R_PARAM_COLOR,
            ParamType::Position => F0R_PARAM_POSITION,
            ParamType::String => F0R_PARAM_STRING,
        }
    }
}

/// Two parameter kinds with one number are one kind, and so for plugin types
/// and pixel layouts: a number read back names what was written.
pub proof fn tags_are_distinct(a: ParamType, b: ParamType, p: PluginType, q: PluginType, m: ColorModel, n: ColorModel)
    ensures
        a.spec_tag() == b.spec_tag() ==> a == b,
        p.spec_tag() == q.spec_tag() ==> p == q,
        m.spec_tag() == n.spec_tag() ==> m == n,
{
}

} // verus!
