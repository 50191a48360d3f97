//! What a plugin is to this library: its descriptions, and the trait that a
//! plugin type implements.

use vstd::prelude::*;
use crate::kinds::{ColorModel, ParamType, PluginType};
use crate::marshal::ParamValue;

verus! {

/// The description of a plugin type. Its texts are zero-terminated bytes,
/// as the host reads them.
#[derive(Clone, Copy, Debug, PartialEq, Eq)]
pub struct PluginInfo {
    pub name: &'static [u8],
    pub author: &'static [u8],
    pub plugin_type: PluginType,
    pub color_model: ColorModel,
    pub major_version: i32,
    pub minor_version: i32,
    pub num_params: usize,
    pub explanation: &'static [u8],
}

/// The description of one parameter. Its texts are zero-terminated bytes,
/// as the host reads them.
#[derive(Clone, Copy, Debug, PartialEq, Eq)]
pub struct ParamInfo {
    pub name: &'static [u8],
    pub param_type: ParamType,
    pub explanation: &'static [u8],
}

/// The reflection of a plugin type: its parameters, by index. The library
/// assumes nothing of an implementation and checks what it answers: an
/// index is handed to it only where it is below `param_count()`, and a value
/// only where it is of the kind that `param_info` declares and that `param`
/// holds at that index.
pub trait PluginBase {
    /// The number of parameters.
    fn param_count() -> usize;

    /// The description of the parameter with the given index.
    fn param_info(index: usize) -> ParamInfo;

    /// The value of the parameter with the given index.
    fn param(&self, index: usize) -> ParamValue;

    /// Stores a value in the parameter with the given index.
    fn set_param(&mut self, index: usize, value: ParamValue);
}

/// A plugin type: its reflection, its description, and what it does to frames.
pub trait Plugin: PluginBase + Sized {
    /// The description of the plugin type.
    fn info() -> PluginInfo;

    /// A plugin for frames of the given size.
    fn new(width: usize, height: usize) -> Self;

    /// Computes one output frame from one input frame. `time` holds the bits
    /// of a 64-bit floating-point number.
    fn update(&mut self, time: u64, width: usize, height: usize, inframe: &[u32], outframe: &mut [u32]);

    /// Computes one output frame from three input frames. `time` holds the
    /// bits of a 64-bit floating-point number.
    fn update2(
        &mut self,
        time: u64,
        width: usize,
        height: usize,
        inframe1: &[u32],
        inframe2: &[u32],
        inframe3: &[u32],
        outframe: &mut [u32],
    );
}

/// `count` is what the plugin type answers when asked for its number of
/// parameters.
pub open spec fn counts<P: PluginBase>(count: usize) -> bool {
    call_ensures(P::param_count, (), count)
}

/// `info` is what the plugin type answers when asked to describe the
/// parameter with the given index.
pub open spec fn declares<P: PluginBase>(index: usize, info: ParamInfo) -> bool {
    call_ensures(P::param_info, (index,), info)
}

/// `value` is what the plugin answers when asked for the value of the
/// parameter with the given index.
pub open spec fn holds<P: PluginBase>(plugin: P, index: usize, value: ParamValue) -> bool {
    call_ensures(P::param, (&plugin, index), value)
}

/// `info` is what the plugin type answers when asked for its description.
pub open spec fn describes<P: Plugin>(info: PluginInfo) -> bool {
    call_ensures(P::info, (), info)
}

/// `plugin` is what the plugin type makes for frames of the given size.
pub open spec fn makes<P: Plugin>(width: usize, height: usize, plugin: P) -> bool {
    call_ensures(P::new, (width, height), plugin)
}

} // verus!
