use frei0r_rs::derive::{derive_plugin_base, Data, DeriveInput, Fields, ParamTable};
use frei0r_rs::directive::Meta;
use frei0r_rs::ffi::{
    f0r_construct, f0r_destruct, f0r_get_param_info, f0r_get_param_value, f0r_get_plugin_info, f0r_param_info_t,
    f0r_plugin_info_t, f0r_set_param_value, f0r_update,
};
use frei0r_rs::error::Violation;
use frei0r_rs::field::{AttrArgs, Attribute, Field, TextExpr};
use frei0r_rs::kinds::{ColorModel, ParamType, PluginType};
use frei0r_rs::marshal::{decode, ParamValue, RawSlot};
use frei0r_rs::plugin::{ParamInfo, Plugin, PluginBase, PluginInfo};
use frei0r_rs::store::ParamStore;
use quote::ToTokens;
use syn::punctuated::Punctuated;

const SOURCE: &str = r##"
    struct Fade {
        opacity: f64,
        #[frei0r(rename = c"active")]
        enabled: bool,
        #[frei0r(skip)]
        label: CString,
    }
"##;

fn directive(meta: syn::Meta) -> Meta {
    match meta {
        syn::Meta::Path(path) => Meta::Path(path.get_ident().map(|word| word.to_string())),
        syn::Meta::NameValue(pair) => Meta::NameValue(
            pair.path.get_ident().map(|word| word.to_string()),
            pair.value.to_token_stream().to_string(),
        ),
        syn::Meta::List(_) => Meta::List,
    }
}

fn written_attribute(attr: &syn::Attribute) -> Attribute {
    let args = match &attr.meta {
        syn::Meta::Path(_) => AttrArgs::Path,
        syn::Meta::NameValue(_) => AttrArgs::NameValue,
        syn::Meta::List(_) => match attr.parse_args_with(Punctuated::<syn::Meta, syn::token::Comma>::parse_terminated) {
            Ok(list) => AttrArgs::List(list.into_iter().map(directive).collect()),
            Err(error) => AttrArgs::Malformed(error.to_string()),
        },
    };
    Attribute { path: attr.path().get_ident().map(|word| word.to_string()), args }
}

fn table() -> ParamTable {
    let input: syn::DeriveInput = syn::parse_str(SOURCE).unwrap();
    let fields = match &input.data {
        syn::Data::Struct(syn::DataStruct { fields: syn::Fields::Named(fields), .. }) => fields
            .named
            .iter()
            .map(|field| Field {
                attrs: field.attrs.iter().map(written_attribute).collect(),
                ident: field.ident.as_ref().unwrap().to_string(),
                ty: field.ty.to_token_stream().to_string(),
            })
            .collect(),
        _ => unreachable!(),
    };
    derive_plugin_base(DeriveInput { ident: input.ident.to_string(), data: Data::Struct(Fields::Named(fields)) })
        .unwrap()
}

/// The zero-terminated bytes that a text of the table stands for.
fn host_text(text: &TextExpr) -> &'static [u8] {
    let mut bytes = match text {
        TextExpr::Given(source) => syn::parse_str::<syn::LitCStr>(source).unwrap().value().into_bytes(),
        TextExpr::Ident(name) => name.clone().into_bytes(),
        TextExpr::Empty => Vec::new(),
    };
    bytes.push(0);
    Box::leak(bytes.into_boxed_slice())
}

struct Fade {
    params: ParamStore,
}

impl PluginBase for Fade {
    fn param_count() -> usize {
        table().param_count()
    }

    fn param_info(index: usize) -> ParamInfo {
        let table = table();
        let row = table.param_info(index);
        ParamInfo { name: host_text(&row.name), param_type: row.kind, explanation: host_text(&row.explanation) }
    }

    fn param(&self, index: usize) -> ParamValue {
        self.params.read(index).unwrap()
    }

    fn set_param(&mut self, index: usize, value: ParamValue) {
        self.params.write(index, value).unwrap()
    }
}

impl Plugin for Fade {
    fn info() -> PluginInfo {
        PluginInfo {
            name: b"fade\0",
            author: b"\0",
            plugin_type: PluginType::Filter,
            color_model: ColorModel::RGBA8888,
            major_version: 1,
            minor_version: 0,
            num_params: Self::param_count(),
            explanation: b"\0",
        }
    }

    fn new(_width: usize, _height: usize) -> Self {
        Fade { params: ParamStore::new(&table()) }
    }

    fn update(&mut self, _time: u64, _width: usize, _height: usize, inframe: &[u32], outframe: &mut [u32]) {
        let on = self.params.read(1) == Ok(ParamValue::Bool(true));
        for (out, pixel) in outframe.iter_mut().zip(inframe) {
            *out = if on { *pixel } else { 0 };
        }
    }

    fn update2(
        &mut self,
        _time: u64,
        _width: usize,
        _height: usize,
        _inframe1: &[u32],
        _inframe2: &[u32],
        _inframe3: &[u32],
        _outframe: &mut [u32],
    ) {
    }
}

fn blank_plugin_record() -> f0r_plugin_info_t {
    f0r_plugin_info_t {
        name: b"",
        author: b"",
        plugin_type: -1,
        color_model: -1,
        frei0r_version: -1,
        major_version: -1,
        minor_version: -1,
        num_params: -1,
        explanation: b"",
    }
}

#[test]
fn a_plugin_of_opacity_enabled_and_a_skipped_label_end_to_end() {
    assert_eq!(Fade::param_count(), 2);
    let mut plugin = blank_plugin_record();
    assert_eq!(f0r_get_plugin_info::<Fade>(&mut plugin), Ok(()));
    assert_eq!(plugin.num_params, 2);

    let mut record = f0r_param_info_t { name: b"", type_: -1, explanation: b"" };
    assert_eq!(f0r_get_param_info::<Fade>(&mut record, 0), Ok(()));
    assert_eq!(record.name, b"opacity\0");
    assert_eq!(record.type_, ParamType::Double.tag());
    assert_eq!(f0r_get_param_info::<Fade>(&mut record, 1), Ok(()));
    assert_eq!(record.name, b"active\0");
    assert_eq!(record.type_, ParamType::Bool.tag());
    assert_eq!(f0r_get_param_info::<Fade>(&mut record, 2), Err(Violation::IndexOutOfRange));

    let mut handle = f0r_construct::<Fade>(4, 2);

    assert_eq!(f0r_set_param_value(&mut handle, &RawSlot::Scalar(0.75f64.to_bits()), 0), Ok(()));
    let mut slot = RawSlot::Scalar(0);
    assert_eq!(f0r_get_param_value(&mut handle, &mut slot, 0), Ok(()));
    match slot {
        RawSlot::Scalar(bits) => assert_eq!(f64::from_bits(bits), 0.75),
        _ => unreachable!(),
    }

    assert_eq!(f0r_set_param_value(&mut handle, &RawSlot::Scalar(1.0f64.to_bits()), 1), Ok(()));
    let mut slot = RawSlot::Scalar(0);
    assert_eq!(f0r_get_param_value(&mut handle, &mut slot, 1), Ok(()));
    assert_eq!(decode(ParamType::Bool, &slot), Ok(ParamValue::Bool(true)));

    assert_eq!(f0r_set_param_value(&mut handle, &RawSlot::String(b"x\0".to_vec()), 2), Err(Violation::IndexOutOfRange));

    let input: Vec<u32> = (1..=8).collect();
    let mut output = vec![0u32; 8];
    assert_eq!(f0r_update(&mut handle, 0.0f64.to_bits(), &input, &mut output), Ok(()));
    assert_eq!(output, input);
    let mut short = vec![0u32; 7];
    assert_eq!(f0r_update(&mut handle, 0.0f64.to_bits(), &input[..7], &mut short), Err(Violation::FrameLength));
    assert_eq!(short, vec![0u32; 7]);

    f0r_destruct(handle);
}
