//! The entry points that a host calls, in safe form: handles are owned
//! boxes, slots are tagged values, frames are slices. Each entry point
//! reports a breach of the interface's rules in its result.

use vstd::prelude::*;
use crate::error::Violation;
use crate::kinds::{ParamType, FREI0R_MAJOR_VERSION};
use crate::marshal::{
    check_host_text, decode, decode_spec, encode, encode_spec, is_host_text, kind_matches, ParamValue,
    ParamValueView, RawSlot, RawSlotView,
};
use crate::plugin::{counts, declares, describes, holds, makes, ParamInfo, Plugin, PluginBase, PluginInfo};

verus! {

/// The record that describes a plugin to the host.
#[allow(non_camel_case_types)]
#[derive(Clone, Copy, Debug, PartialEq, Eq)]
pub struct f0r_plugin_info_t {
    pub name: &'static [u8],
    pub author: &'static [u8],
    pub plugin_type: i32,
    pub color_model: i32,
    pub frei0r_version: i32,
    pub major_version: i32,
    pub minor_version: i32,
    pub num_params: i32,
    pub explanation: &'static [u8],
}

/// The record that describes a parameter to the host.
#[allow(non_camel_case_types)]
#[derive(Clone, Copy, Debug, PartialEq, Eq)]
pub struct f0r_param_info_t {
    pub name: &'static [u8],
    pub type_: i32,
    pub explanation: &'static [u8],
}

/// Process-wide setup: there is none, and it succeeds.
pub fn f0r_init() -> (status: i32)
    ensures
        status == 1,
{
    1
}

/// Process-wide teardown: there is none.
pub fn f0r_deinit() {
}

/// The record of a plugin's description. Each text must be a text as the
/// host reads one, and the number of parameters must fit the record's
/// counter.
pub open spec fn plugin_record_of(our_info: PluginInfo) -> Result<f0r_plugin_info_t, Violation> {
    if !is_host_text(our_info.name@) || !is_host_text(our_info.author@) || !is_host_text(our_info.explanation@) {
        Err(Violation::DescriptionText)
    } else if our_info.num_params > i32::MAX {
        Err(Violation::TooManyParams)
    } else {
        Ok(
            f0r_plugin_info_t {
                name: our_info.name,
                author: our_info.author,
                plugin_type: our_info.plugin_type.spec_tag(),
                color_model: our_info.color_model.spec_tag(),
                frei0r_version: FREI0R_MAJOR_VERSION,
                major_version: our_info.major_version,
                minor_version: our_info.minor_version,
                num_params: our_info.num_params as i32,
                explanation: our_info.explanation,
            },
        )
    }
}

/// The record of a parameter's description. Each text must be a text as the
/// host reads one.
pub open spec fn param_record_of(our_info: ParamInfo) -> Result<f0r_param_info_t, Violation> {
    if !is_host_text(our_info.name@) || !is_host_text(our_info.explanation@) {
        Err(Violation::DescriptionText)
    } else {
        Ok(
            f0r_param_info_t {
                name: our_info.name,
                type_: our_info.param_type.spec_tag(),
                explanation: our_info.explanation,
            },
        )
    }
}

/// Fills the record of a plugin's description.
pub fn plugin_info_record(our_info: PluginInfo) -> (record: Result<f0r_plugin_info_t, Violation>)
    ensures
        record == plugin_record_of(our_info),
{
    if !check_host_text(our_info.name) || !check_host_text(our_info.author) || !check_host_text(our_info.explanation) {
        return Err(Violation::DescriptionText);
    }
    if our_info.num_params > 0x7fff_ffff {
        return Err(Violation::TooManyParams);
    }
    Ok(
        f0r_plugin_info_t {
            name: our_info.name,
            author: our_info.author,
            plugin_type: our_info.plugin_type.tag(),
            color_model: our_info.color_model.tag(),
            frei0r_version: FREI0R_MAJOR_VERSION,
            major_version: our_info.major_version,
            minor_version: our_info.minor_version,
            num_params: our_info.num_params as i32,
            explanation: our_info.explanation,
        },
    )
}

/// Fills the record of a parameter's description.
pub fn param_info_record(our_info: ParamInfo) -> (record: Result<f0r_param_info_t, Violation>)
    ensures
        record == param_record_of(our_info),
{
    if !check_host_text(our_info.name) || !check_host_text(our_info.explanation) {
        return Err(Violation::DescriptionText);
    }
    Ok(
        f0r_param_info_t {
            name: our_info.name,
            type_: our_info.param_type.tag(),
            explanation: our_info.explanation,
        },
    )
}

/// The place in the table that a host's index names, among `count`
/// parameters: the index itself where it is not negative and below `count`.
pub open spec fn index_of(param_index: i32, count: usize) -> Result<usize, Violation> {
    if 0 <= param_index < count {
        Ok(param_index as usize)
    } else {
        Err(Violation::IndexOutOfRange)
    }
}

/// Checks a host's index against the number of parameters.
pub fn check_index(param_index: i32, count: usize) -> (index: Result<usize, Violation>)
    ensures
        index == index_of(param_index, count),
{
    if param_index < 0 {
        return Err(Violation::IndexOutOfRange);
    }
    let index = param_index as usize;
    if index < count {
        Ok(index)
    } else {
        Err(Violation::IndexOutOfRange)
    }
}

/// What is read from a slot for a parameter that is declared as `declared`
/// and holds a value of kind `held`: the kinds are compared first.
pub open spec fn read_slot_spec(declared: ParamType, held: ParamType, slot: RawSlotView) -> Result<ParamValueView, Violation> {
    if declared != held {
        Err(Violation::KindMismatch)
    } else {
        decode_spec(declared, slot)
    }
}

/// Reads a slot for a parameter that is declared as `declared` and holds a
/// value of kind `held`.
pub fn read_slot(declared: ParamType, held: ParamType, slot: &RawSlot) -> (value: Result<ParamValue, Violation>)
    ensures
        match value {
            Ok(v) => read_slot_spec(declared, held, slot@) == Ok::<ParamValueView, Violation>(v@),
            Err(e) => read_slot_spec(declared, held, slot@) == Err::<ParamValueView, Violation>(e),
        },
{
    if !kind_matches(declared, held) {
        return Err(Violation::KindMismatch);
    }
    decode(declared, slot)
}

/// Writes the value of a parameter that is declared as `declared` to a slot.
/// A value of another kind leaves the slot as it was.
pub fn write_slot(declared: ParamType, value: &ParamValue, slot: &mut RawSlot) -> (done: Result<(), Violation>)
    ensures
        declared == value@.kind() ==> done.is_ok() && final(slot)@ == encode_spec(value@),
        declared != value@.kind() ==> done == Err::<(), Violation>(Violation::KindMismatch) && *final(slot) == *old(slot),
{
    if !kind_matches(declared, value.kind()) {
        return Err(Violation::KindMismatch);
    }
    encode(value, slot);
    Ok(())
}

/// One instance of a plugin: the size of its frames, fixed when it is made,
/// and the plugin's own state.
pub struct Instance<P: Plugin> {
    width: usize,
    height: usize,
    inner: P,
    exposed: Vec<u8>,
}

impl<P: Plugin> Instance<P> {
    /// The width of the frames, in pixels.
    pub closed spec fn spec_width(&self) -> usize {
        self.width
    }

    /// The height of the frames, in pixels.
    pub closed spec fn spec_height(&self) -> usize {
        self.height
    }

    /// The plugin's own state.
    pub closed spec fn spec_inner(&self) -> P {
        self.inner
    }

    /// The zero-terminated bytes of the text that was last handed to the host.
    pub closed spec fn spec_exposed(&self) -> Seq<u8> {
        self.exposed@
    }

    /// The number of pixels of a frame.
    pub open spec fn frame_words(&self) -> int {
        self.spec_width() * self.spec_height()
    }

    #[verifier::when_used_as_spec(spec_width)]
    pub fn width(&self) -> (width: usize)
        ensures
            width == self.spec_width(),
    {
        self.width
    }

    #[verifier::when_used_as_spec(spec_height)]
    pub fn height(&self) -> (height: usize)
        ensures
            height == self.spec_height(),
    {
        self.height
    }

    /// The plugin's own state.
    pub fn inner(&self) -> (inner: &P)
        ensures
            *inner == self.spec_inner(),
    {
        &self.inner
    }

    /// The zero-terminated bytes of the text that was last handed to the
    /// host. They stay in place until the next text is handed out.
    pub fn exposed_text(&self) -> (bytes: &Vec<u8>)
        ensures
            bytes@ == self.spec_exposed(),
    {
        &self.exposed
    }

    /// The number of pixels of a frame; `None` where it is more than a
    /// length can be.
    pub fn frame_len(&self) -> (len: Option<usize>)
        ensures
            match len {
                Some(n) => n == self.frame_words(),
                None => self.frame_words() > usize::MAX,
            },
    {
        self.width.checked_mul(self.height)
    }

    /// Whether a frame of the given length is a frame of this instance.
    pub fn accepts_frame(&self, len: usize) -> (fits: bool)
        ensures
            fits == (len == self.frame_words()),
    {
        match self.frame_len() {
            Some(n) => n == len,
            None => false,
        }
    }
}

/// Makes an instance for frames of the given size, with the plugin that the
/// plugin type makes for that size. The box is the handle: it alone owns
/// the instance.
pub fn f0r_construct<P: Plugin>(width: u32, height: u32) -> (instance: Box<Instance<P>>)
    ensures
        instance.spec_width() == width,
        instance.spec_height() == height,
        instance.frame_words() == width * height,
        instance.spec_exposed() == Seq::<u8>::empty(),
        makes::<P>(width as usize, height as usize, instance.spec_inner()),
{
    let width: usize = width as usize;
    let height: usize = height as usize;
    let inner = P::new(width, height);
    Box::new(Instance { width, height, inner, exposed: Vec::new() })
}

/// Ends an instance. The handle is taken by value, so nothing can use it
/// afterwards.
pub fn f0r_destruct<P: Plugin>(instance: Box<Instance<P>>) {
    let _ended = instance;
}

/// Fills the record that describes the plugin to the host: the record of
/// the plugin type's description. Where the description cannot be handed to
/// a host, the record stays as it was.
pub fn f0r_get_plugin_info<P: Plugin>(info: &mut f0r_plugin_info_t) -> (done: Result<(), Violation>)
    ensures
        exists|our_info: PluginInfo| #[trigger]
            describes::<P>(our_info) && match plugin_record_of(our_info) {
                Ok(record) => done.is_ok() && *final(info) == record,
                Err(e) => done == Err::<(), Violation>(e) && *final(info) == *old(info),
            },
{
    let our_info = P::info();
    assert(describes::<P>(our_info));
    match plugin_info_record(our_info) {
        Ok(record) => {
            *info = record;
            Ok(())
        },
        Err(e) => Err(e),
    }
}

/// Fills the record that describes the parameter with the given index: the
/// record of the plugin type's description of it. The index is checked
/// against the plugin type's number of parameters, and the plugin type is
/// asked only where it names a parameter. An error leaves the record as it
/// was.
pub fn f0r_get_param_info<P: Plugin>(info: &mut f0r_param_info_t, param_index: i32) -> (done: Result<(), Violation>)
    ensures
        exists|count: usize| #[trigger]
            counts::<P>(count) && match index_of(param_index, count) {
                Err(e) => done == Err::<(), Violation>(e) && *final(info) == *old(info),
                Ok(index) => exists|our_info: ParamInfo| #[trigger]
                    declares::<P>(index, our_info) && match param_record_of(our_info) {
                        Ok(record) => done.is_ok() && *final(info) == record,
                        Err(e) => done == Err::<(), Violation>(e) && *final(info) == *old(info),
                    },
            },
{
    let count = P::param_count();
    assert(counts::<P>(count));
    let index = match check_index(param_index, count) {
        Ok(index) => index,
        Err(e) => {
            return Err(e);
        },
    };
    let our_info = P::param_info(index);
    assert(declares::<P>(index, our_info));
    match param_info_record(our_info) {
        Ok(record) => {
            *info = record;
            Ok(())
        },
        Err(e) => Err(e),
    }
}

/// Stores what the slot holds in the parameter with the given index. The
/// index is checked against the plugin type's number of parameters, the
/// kind that the plugin type declares against the kind of the value that
/// the plugin holds, and the slot against that kind; the plugin is handed
/// the value that the slot decodes to, and only where all three hold. An
/// error leaves the instance as it was.
pub fn f0r_set_param_value<P: Plugin>(instance: &mut Instance<P>, param: &RawSlot, param_index: i32) -> (done: Result<(), Violation>)
    ensures
        final(instance).spec_width() == old(instance).spec_width(),
        final(instance).spec_height() == old(instance).spec_height(),
        final(instance).spec_exposed() == old(instance).spec_exposed(),
        exists|count: usize| #[trigger]
            counts::<P>(count) && match index_of(param_index, count) {
                Err(e) => done == Err::<(), Violation>(e) && *final(instance) == *old(instance),
                Ok(index) => exists|our_info: ParamInfo, held: ParamValue|
                    #![trigger declares::<P>(index, our_info), holds::<P>(old(instance).spec_inner(), index, held)]
                    declares::<P>(index, our_info) && holds::<P>(old(instance).spec_inner(), index, held)
                        && match read_slot_spec(our_info.param_type, held@.kind(), param@) {
                        Err(e) => done == Err::<(), Violation>(e) && *final(instance) == *old(instance),
                        Ok(decoded) => done.is_ok() && exists|value: ParamValue, plugin: &mut P|
                            value@ == decoded && *plugin == old(instance).spec_inner()
                                && *final(plugin) == final(instance).spec_inner()
                                && #[trigger] call_ensures(P::set_param, (plugin, index, value), ()),
                    },
            },
{
    let count = P::param_count();
    assert(counts::<P>(count));
    let index = match check_index(param_index, count) {
        Ok(index) => index,
        Err(e) => {
            return Err(e);
        },
    };
    let our_info = P::param_info(index);
    let held = instance.inner.param(index);
    assert(declares::<P>(index, our_info));
    assert(holds::<P>(instance.spec_inner(), index, held));
    match read_slot(our_info.param_type, held.kind(), param) {
        Ok(value) => {
            instance.inner.set_param(index, value);
            Ok(())
        },
        Err(e) => Err(e),
    }
}

/// Writes the value that the plugin holds in the parameter with the given
/// index to the slot. The index and the kinds are checked as for a store.
/// A text is also kept in the instance, zero-terminated, so that the host
/// can be handed a pointer into the instance; it stays until the next text
/// is read. An error leaves the slot and the instance as they were.
pub fn f0r_get_param_value<P: Plugin>(instance: &mut Instance<P>, param: &mut RawSlot, param_index: i32) -> (done: Result<(), Violation>)
    ensures
        final(instance).spec_width() == old(instance).spec_width(),
        final(instance).spec_height() == old(instance).spec_height(),
        final(instance).spec_inner() == old(instance).spec_inner(),
        exists|count: usize| #[trigger]
            counts::<P>(count) && match index_of(param_index, count) {
                Err(e) => done == Err::<(), Violation>(e) && *final(instance) == *old(instance) && *final(param) == *old(param),
                Ok(index) => exists|our_info: ParamInfo, value: ParamValue|
                    #![trigger declares::<P>(index, our_info), holds::<P>(old(instance).spec_inner(), index, value)]
                    declares::<P>(index, our_info) && holds::<P>(old(instance).spec_inner(), index, value)
                        && if our_info.param_type == value@.kind() {
                        &&& done.is_ok()
                        &&& final(param)@ == encode_spec(value@)
                        &&& final(instance).spec_exposed() == match value@ {
                            ParamValueView::String(text) => text.push(0u8),
                            _ => old(instance).spec_exposed(),
                        }
                    } else {
                        &&& done == Err::<(), Violation>(Violation::KindMismatch)
                        &&& *final(instance) == *old(instance)
                        &&& *final(param) == *old(param)
                    },
            },
{
    let count = P::param_count();
    assert(counts::<P>(count));
    let index = match check_index(param_index, count) {
        Ok(index) => index,
        Err(e) => {
            return Err(e);
        },
    };
    let our_info = P::param_info(index);
    let value = instance.inner.param(index);
    assert(declares::<P>(index, our_info));
    assert(holds::<P>(instance.spec_inner(), index, value));
    match write_slot(our_info.param_type, &value, param) {
        Ok(()) => {
            if let RawSlot::String(bytes) = param {
                instance.exposed = bytes.clone();
            }
            Ok(())
        },
        Err(e) => Err(e),
    }
}

/// Hands one input frame and the output frame to the plugin, with the size
/// of the instance. Each frame must hold exactly width times height pixels;
/// where one does not, the plugin is not called and nothing is written.
pub fn f0r_update<P: Plugin>(instance: &mut Instance<P>, time: u64, inframe: &[u32], outframe: &mut [u32]) -> (done: Result<(), Violation>)
    ensures
        final(instance).spec_width() == old(instance).spec_width(),
        final(instance).spec_height() == old(instance).spec_height(),
        final(instance).spec_exposed() == old(instance).spec_exposed(),
        if inframe@.len() == old(instance).frame_words() && old(outframe)@.len() == old(instance).frame_words() {
            &&& done.is_ok()
            &&& exists|plugin: &mut P, frame: &mut [u32]|
                *plugin == old(instance).spec_inner() && *final(plugin) == final(instance).spec_inner() && frame@
                    == old(outframe)@ && final(frame)@ == final(outframe)@ && #[trigger] call_ensures(
                    P::update,
                    (plugin, time, old(instance).spec_width(), old(instance).spec_height(), inframe, frame),
                    (),
                )
        } else {
            &&& done == Err::<(), Violation>(Violation::FrameLength)
            &&& *final(instance) == *old(instance)
            &&& final(outframe)@ == old(outframe)@
        },
{
    if !instance.accepts_frame(inframe.len()) || !instance.accepts_frame(outframe.len()) {
        return Err(Violation::FrameLength);
    }
    instance.inner.update(time, instance.width, instance.height, inframe, outframe);
    Ok(())
}

/// Hands three input frames and the output frame to the plugin, with the
/// size of the instance. Each frame must hold exactly width times height
/// pixels; where one does not, the plugin is not called and nothing is
/// written.
pub fn f0r_update2<P: Plugin>(
    instance: &mut Instance<P>,
    time: u64,
    inframe1: &[u32],
    inframe2: &[u32],
    inframe3: &[u32],
    outframe: &mut [u32],
) -> (done: Result<(), Violation>)
    ensures
        final(instance).spec_width() == old(instance).spec_width(),
        final(instance).spec_height() == old(instance).spec_height(),
        final(instance).spec_exposed() == old(instance).spec_exposed(),
        if inframe1@.len() == old(instance).frame_words() && inframe2@.len() == old(instance).frame_words()
            && inframe3@.len() == old(instance).frame_words() && old(outframe)@.len() == old(instance).frame_words() {
            &&& done.is_ok()
            &&& exists|plugin: &mut P, frame: &mut [u32]|
                *plugin == old(instance).spec_inner() && *final(plugin) == final(instance).spec_inner() && frame@
                    == old(outframe)@ && final(frame)@ == final(outframe)@ && #[trigger] call_ensures(
                    P::update2,
                    (
                        plugin,
                        time,
                        old(instance).spec_width(),
                        old(instance).spec_height(),
                        inframe1,
                        inframe2,
                        inframe3,
                        frame,
                    ),
                    (),
                )
        } else {
            &&& done == Err::<(), Violation>(Violation::FrameLength)
            &&& *final(instance) == *old(instance)
            &&& final(outframe)@ == old(outframe)@
        },
{
    if !instance.accepts_frame(inframe1.len()) || !instance.accepts_frame(inframe2.len())
        || !instance.accepts_frame(inframe3.len()) || !instance.accepts_frame(outframe.len()) {
        return Err(Violation::FrameLength);
    }
    instance.inner.update2(time, instance.width, instance.height, inframe1, inframe2, inframe3, outframe);
    Ok(())
}

} // verus!
