//! The fields of the `multipart/form-data` bodies of the file-upload endpoints.
//!
//! A body is described as a list of fields; file fields name the path of the
//! file, which is read afresh each time the body is put on the wire.
use vstd::prelude::*;
use crate::types::{
    opt_view, ClipGuidancePreset, ImageToImageRequestBody, ImageToImageUpscaleBody,
    LatentUpscalerUpscaleRequestBody, MaskingRequestBody, RealESRGANUpscaleRequestBody, Sampler,
    StylePreset, TextPromptView, TextPrompts,
};
use crate::wire::{
    clip_guidance_preset_name, decimal, decimal_text, is_digit, lemma_decimal_digits,
    lemma_decimal_injective, mask_source_name, sampler_name, style_preset_name,
};

verus! {

/// The content of one field.
#[derive(Debug, Clone, PartialEq)]
pub enum FieldValue {
    /// A text value.
    Text(String),
    /// The content of the file at this path.
    File(String),
}

/// One named field of a multipart body.
#[derive(Debug, Clone, PartialEq)]
pub struct FormField {
    pub name: String,
    pub value: FieldValue,
}

pub enum FieldValueView {
    Text(Seq<char>),
    File(Seq<char>),
}

pub struct FieldView {
    pub name: Seq<char>,
    pub value: FieldValueView,
}

impl View for FormField {
    type V = FieldView;

    open spec fn view(&self) -> FieldView {
        FieldView {
            name: self.name@,
            value: match self.value {
                FieldValue::Text(t) => FieldValueView::Text(t@),
                FieldValue::File(p) => FieldValueView::File(p@),
            },
        }
    }
}

pub open spec fn fields_view(v: Seq<FormField>) -> Seq<FieldView> {
    v.map_values(|f: FormField| f@)
}

pub open spec fn text_field(name: Seq<char>, value: Seq<char>) -> FieldView {
    FieldView { name, value: FieldValueView::Text(value) }
}

pub open spec fn file_field(name: Seq<char>, path: Seq<char>) -> FieldView {
    FieldView { name, value: FieldValueView::File(path) }
}

/// The name of part `part` of prompt `i`: `text_prompts[i][part]`.
pub open spec fn prompt_field_name(i: nat, part: Seq<char>) -> Seq<char> {
    "text_prompts["@ + decimal(i) + "]["@ + part + "]"@
}

/// The fields of prompt `i`: none for an empty text; else its text, then its weight if it has one.
pub open spec fn fields_of_prompt(i: nat, p: TextPromptView) -> Seq<FieldView> {
    if p.text.len() == 0 {
        seq![]
    } else {
        seq![text_field(prompt_field_name(i, "text"@), p.text)] + match p.weight {
            Some(w) => seq![text_field(prompt_field_name(i, "weight"@), w)],
            None => seq![],
        }
    }
}

/// The fields of the first `n` prompts, in order.
pub open spec fn prompt_fields(ps: Seq<TextPromptView>, n: nat) -> Seq<FieldView>
    decreases n,
{
    if n == 0 {
        seq![]
    } else {
        prompt_fields(ps, (n - 1) as nat) + fields_of_prompt((n - 1) as nat, ps[n - 1])
    }
}

/// The fields of all the prompts.
pub open spec fn encode_prompts(ps: Seq<TextPromptView>) -> Seq<FieldView> {
    prompt_fields(ps, ps.len())
}

/// A text field when the value is present, and nothing when it is absent.
pub open spec fn opt_text(name: Seq<char>, v: Option<Seq<char>>) -> Seq<FieldView> {
    match v {
        Some(t) => seq![text_field(name, t)],
        None => seq![],
    }
}

pub open spec fn opt_decimal(name: Seq<char>, v: Option<u64>) -> Seq<FieldView> {
    match v {
        Some(n) => seq![text_field(name, decimal(n as nat))],
        None => seq![],
    }
}

pub open spec fn widen8(v: Option<u8>) -> Option<u64> {
    match v {
        Some(n) => Some(n as u64),
        None => None,
    }
}

pub open spec fn widen16(v: Option<u16>) -> Option<u64> {
    match v {
        Some(n) => Some(n as u64),
        None => None,
    }
}

pub open spec fn widen32(v: Option<u32>) -> Option<u64> {
    match v {
        Some(n) => Some(n as u64),
        None => None,
    }
}

pub open spec fn opt_clip(v: Option<ClipGuidancePreset>) -> Option<Seq<char>> {
    match v {
        Some(p) => Some(clip_guidance_preset_name(p)),
        None => None,
    }
}

pub open spec fn opt_sampler(v: Option<Sampler>) -> Option<Seq<char>> {
    match v {
        Some(s) => Some(sampler_name(s)),
        None => None,
    }
}

pub open spec fn opt_style(v: Option<StylePreset>) -> Option<Seq<char>> {
    match v {
        Some(s) => Some(style_preset_name(s)),
        None => None,
    }
}

fn push_field(fields: &mut Vec<FormField>, f: FormField)
    ensures
        fields_view(final(fields)@) == fields_view(old(fields)@) + seq![f@],
{
    fields.push(f);
    assert(fields_view(fields@) =~= fields_view(old(fields)@) + seq![f@]);
}

fn push_text(fields: &mut Vec<FormField>, name: &str, value: String)
    ensures
        fields_view(final(fields)@) == fields_view(old(fields)@) + seq![text_field(name@, value@)],
{
    push_field(fields, FormField { name: String::from_str(name), value: FieldValue::Text(value) });
}

fn push_file(fields: &mut Vec<FormField>, name: &str, path: &String)
    ensures
        fields_view(final(fields)@) == fields_view(old(fields)@) + seq![file_field(name@, path@)],
{
    push_field(
        fields,
        FormField { name: String::from_str(name), value: FieldValue::File(path.clone()) },
    );
}

fn push_opt_text(fields: &mut Vec<FormField>, name: &str, value: &Option<String>)
    ensures
        fields_view(final(fields)@) == fields_view(old(fields)@) + opt_text(name@, opt_view(*value)),
{
    match value {
        Some(t) => push_text(fields, name, t.clone()),
        None => {
            assert(fields_view(fields@) =~= fields_view(fields@) + seq![]);
        },
    }
}

fn push_opt_decimal(fields: &mut Vec<FormField>, name: &str, value: Option<u64>)
    ensures
        fields_view(final(fields)@) == fields_view(old(fields)@) + opt_decimal(name@, value),
{
    match value {
        Some(n) => push_text(fields, name, decimal_text(n)),
        None => {
            assert(fields_view(fields@) =~= fields_view(fields@) + seq![]);
        },
    }
}

fn widen_u8(v: Option<u8>) -> (r: Option<u64>)
    ensures
        r == widen8(v),
{
    match v {
        Some(n) => Some(n as u64),
        None => None,
    }
}

fn widen_u16(v: Option<u16>) -> (r: Option<u64>)
    ensures
        r == widen16(v),
{
    match v {
        Some(n) => Some(n as u64),
        None => None,
    }
}

fn widen_u32(v: Option<u32>) -> (r: Option<u64>)
    ensures
        r == widen32(v),
{
    match v {
        Some(n) => Some(n as u64),
        None => None,
    }
}

fn clip_text(v: Option<ClipGuidancePreset>) -> (r: Option<String>)
    ensures
        opt_view(r) == opt_clip(v),
{
    match v {
        Some(p) => Some(p.to_string()),
        None => None,
    }
}

fn sampler_text(v: Option<Sampler>) -> (r: Option<String>)
    ensures
        opt_view(r) == opt_sampler(v),
{
    match v {
        Some(s) => Some(s.to_string()),
        None => None,
    }
}

fn style_text(v: Option<StylePreset>) -> (r: Option<String>)
    ensures
        opt_view(r) == opt_style(v),
{
    match v {
        Some(s) => Some(s.to_string()),
        None => None,
    }
}

/// Writes `text_prompts[i][part]`.
fn prompt_name(i: usize, part: &str) -> (r: String)
    ensures
        r@ == prompt_field_name(i as nat, part@),
{
    let s = String::from_str("text_prompts[").concat(decimal_text(i as u64).as_str());
    s.concat("][").concat(part).concat("]")
}

/// Appends the fields of weighted text prompts: prompt `i` becomes
/// `text_prompts[i][text]` and, if it has a weight, `text_prompts[i][weight]`;
/// a prompt with an empty text is left out, and the others keep their index.
pub fn push_prompt_fields(fields: &mut Vec<FormField>, prompts: &TextPrompts)
    ensures
        fields_view(final(fields)@) == fields_view(old(fields)@) + encode_prompts(prompts.prompts()),
{
    let ghost ps = prompts.prompts();
    let n = prompts.text_prompts.len();
    let mut i: usize = 0;
    assert(fields_view(fields@) =~= fields_view(old(fields)@) + prompt_fields(ps, 0));
    while i < n
        invariant
            n == prompts.text_prompts@.len(),
            ps == prompts.prompts(),
            i <= n,
            fields_view(fields@) == fields_view(old(fields)@) + prompt_fields(ps, i as nat),
        decreases n - i,
    {
        let p = &prompts.text_prompts[i];
        assert(ps[i as int] == p@);
        let ghost before = fields_view(fields@);
        if p.text.as_str().is_empty() {
            assert(fields_view(fields@) =~= before + fields_of_prompt(i as nat, p@));
        } else {
            push_text(fields, prompt_name(i, "text").as_str(), p.text.clone());
            match &p.weight {
                Some(w) => {
                    push_text(fields, prompt_name(i, "weight").as_str(), w.clone());
                },
                None => {},
            }
            assert(fields_view(fields@) =~= before + fields_of_prompt(i as nat, p@));
        }
        assert(prompt_fields(ps, (i + 1) as nat) == prompt_fields(ps, i as nat) + fields_of_prompt(
            i as nat,
            ps[i as int],
        ));
        assert(fields_view(fields@) =~= fields_view(old(fields)@) + prompt_fields(ps, (i + 1) as nat));
        i = i + 1;
    }
}

/// The fields of weighted text prompts alone.
pub fn text_prompt_fields(prompts: &TextPrompts) -> (r: Vec<FormField>)
    ensures
        fields_view(r@) == encode_prompts(prompts.prompts()),
{
    let mut fields: Vec<FormField> = Vec::new();
    assert(fields_view(fields@) =~= seq![]);
    push_prompt_fields(&mut fields, prompts);
    assert(fields_view(fields@) =~= encode_prompts(prompts.prompts()));
    fields
}

pub open spec fn image_to_image_fields(r: ImageToImageRequestBody) -> Seq<FieldView> {
    seq![] + seq![file_field("init_image"@, r.init_image.path@)] + encode_prompts(
        r.text_prompts.prompts(),
    ) + opt_text("image_strength"@, opt_view(r.image_strength)) + opt_text(
        "step_schedule_start"@,
        opt_view(r.step_schedule_start),
    ) + opt_text("step_schedule_end"@, opt_view(r.step_schedule_end)) + opt_decimal(
        "cfg_scale"@,
        widen8(r.cfg_scale),
    ) + opt_text("clip_guidance_preset"@, opt_clip(r.clip_guidance_preset)) + opt_text(
        "sampler"@,
        opt_sampler(r.sampler),
    ) + opt_decimal("samples"@, widen8(r.samples)) + opt_decimal("seed"@, widen32(r.seed))
        + opt_decimal("steps"@, widen32(r.steps)) + opt_text(
        "style_preset"@,
        opt_style(r.style_preset),
    ) + opt_text("extras"@, opt_view(r.extras))
}

pub open spec fn latent_upscaler_fields(r: LatentUpscalerUpscaleRequestBody) -> Seq<FieldView> {
    seq![] + seq![file_field("image"@, r.image.path@)] + opt_decimal("width"@, widen16(r.width))
        + opt_decimal("height"@, widen16(r.height)) + match r.text_prompts {
        Some(tp) => encode_prompts(tp.prompts()),
        None => seq![],
    } + opt_decimal("seed"@, widen32(r.seed)) + opt_decimal("steps"@, widen32(r.steps))
        + opt_decimal("cfg_scale"@, widen8(r.cfg_scale))
}

pub open spec fn real_esrgan_fields(r: RealESRGANUpscaleRequestBody) -> Seq<FieldView> {
    seq![] + seq![file_field("image"@, r.image.path@)] + opt_decimal("width"@, widen16(r.width))
        + opt_decimal("height"@, widen16(r.height))
}

pub open spec fn upscale_fields(r: ImageToImageUpscaleBody) -> Seq<FieldView> {
    match r {
        ImageToImageUpscaleBody::LatentUpscalerUpscaleRequestBody(b) => latent_upscaler_fields(b),
        ImageToImageUpscaleBody::RealESRGANUpscaleRequestBody(b) => real_esrgan_fields(b),
    }
}

pub open spec fn masking_fields(r: MaskingRequestBody) -> Seq<FieldView> {
    seq![] + seq![file_field("init_image"@, r.init_image.path@)] + encode_prompts(
        r.text_prompts.prompts(),
    ) + seq![text_field("mask_source"@, mask_source_name(r.mask_source))] + match r.mask_image {
        Some(m) => seq![file_field("mask_image"@, m.path@)],
        None => seq![],
    } + opt_decimal("cfg_scale"@, widen8(r.cfg_scale)) + opt_text(
        "clip_guidance_preset"@,
        opt_clip(r.clip_guidance_preset),
    ) + opt_text("sampler"@, opt_sampler(r.sampler)) + opt_decimal("samples"@, widen8(r.samples))
        + opt_decimal("seed"@, widen32(r.seed)) + opt_decimal("steps"@, widen32(r.steps))
        + opt_text("style_preset"@, opt_style(r.style_preset)) + opt_text(
        "extras"@,
        opt_view(r.extras),
    )
}

fn empty_fields() -> (r: Vec<FormField>)
    ensures
        fields_view(r@) == Seq::<FieldView>::empty(),
{
    let r: Vec<FormField> = Vec::new();
    assert(fields_view(r@) =~= seq![]);
    r
}

impl ImageToImageRequestBody {
    /// The fields of the body: the initial image, the prompts, then each
    /// parameter that is present; `init_image_mode` is not sent.
    pub fn form_fields(&self) -> (r: Vec<FormField>)
        ensures
            fields_view(r@) == image_to_image_fields(*self),
    {
        let mut f = empty_fields();
        push_file(&mut f, "init_image", &self.init_image.path);
        push_prompt_fields(&mut f, &self.text_prompts);
        push_opt_text(&mut f, "image_strength", &self.image_strength);
        push_opt_text(&mut f, "step_schedule_start", &self.step_schedule_start);
        push_opt_text(&mut f, "step_schedule_end", &self.step_schedule_end);
        push_opt_decimal(&mut f, "cfg_scale", widen_u8(self.cfg_scale));
        push_opt_text(&mut f, "clip_guidance_preset", &clip_text(self.clip_guidance_preset));
        push_opt_text(&mut f, "sampler", &sampler_text(self.sampler));
        push_opt_decimal(&mut f, "samples", widen_u8(self.samples));
        push_opt_decimal(&mut f, "seed", widen_u32(self.seed));
        push_opt_decimal(&mut f, "steps", widen_u32(self.steps));
        push_opt_text(&mut f, "style_preset", &style_text(self.style_preset));
        push_opt_text(&mut f, "extras", &self.extras);
        f
    }
}

impl LatentUpscalerUpscaleRequestBody {
    /// The fields of the body: the image, then each parameter that is present.
    pub fn form_fields(&self) -> (r: Vec<FormField>)
        ensures
            fields_view(r@) == latent_upscaler_fields(*self),
    {
        let mut f = empty_fields();
        push_file(&mut f, "image", &self.image.path);
        push_opt_decimal(&mut f, "width", widen_u16(self.width));
        push_opt_decimal(&mut f, "height", widen_u16(self.height));
        match &self.text_prompts {
            Some(tp) => push_prompt_fields(&mut f, tp),
            None => {
                assert(fields_view(f@) =~= fields_view(f@) + seq![]);
            },
        }
        push_opt_decimal(&mut f, "seed", widen_u32(self.seed));
        push_opt_decimal(&mut f, "steps", widen_u32(self.steps));
        push_opt_decimal(&mut f, "cfg_scale", widen_u8(self.cfg_scale));
        f
    }
}

impl RealESRGANUpscaleRequestBody {
    /// The fields of the body: the image, then width and height when present.
    pub fn form_fields(&self) -> (r: Vec<FormField>)
        ensures
            fields_view(r@) == real_esrgan_fields(*self),
    {
        let mut f = empty_fields();
        push_file(&mut f, "image", &self.image.path);
        push_opt_decimal(&mut f, "width", widen_u16(self.width));
        push_opt_decimal(&mut f, "height", widen_u16(self.height));
        f
    }
}

impl ImageToImageUpscaleBody {
    /// The fields of the body of the chosen kind of upscaler.
    pub fn form_fields(&self) -> (r: Vec<FormField>)
        ensures
            fields_view(r@) == upscale_fields(*self),
    {
        match self {
            ImageToImageUpscaleBody::LatentUpscalerUpscaleRequestBody(b) => b.form_fields(),
            ImageToImageUpscaleBody::RealESRGANUpscaleRequestBody(b) => b.form_fields(),
        }
    }
}

impl MaskingRequestBody {
    /// The fields of the body: the initial image, the prompts, the mask
    /// source, the mask image if any, then each parameter that is present.
    pub fn form_fields(&self) -> (r: Vec<FormField>)
        ensures
            fields_view(r@) == masking_fields(*self),
    {
        let mut f = empty_fields();
        push_file(&mut f, "init_image", &self.init_image.path);
        push_prompt_fields(&mut f, &self.text_prompts);
        push_text(&mut f, "mask_source", self.mask_source.to_string());
        match &self.mask_image {
            Some(m) => push_file(&mut f, "mask_image", &m.path),
            None => {
                assert(fields_view(f@) =~= fields_view(f@) + seq![]);
            },
        }
        push_opt_decimal(&mut f, "cfg_scale", widen_u8(self.cfg_scale));
        push_opt_text(&mut f, "clip_guidance_preset", &clip_text(self.clip_guidance_preset));
        push_opt_text(&mut f, "sampler", &sampler_text(self.sampler));
        push_opt_decimal(&mut f, "samples", widen_u8(self.samples));
        push_opt_decimal(&mut f, "seed", widen_u32(self.seed));
        push_opt_decimal(&mut f, "steps", widen_u32(self.steps));
        push_opt_text(&mut f, "style_preset", &style_text(self.style_preset));
        push_opt_text(&mut f, "extras", &self.extras);
        f
    }
}

/// One of the two parts a prompt is sent in.
pub open spec fn is_prompt_part(p: Seq<char>) -> bool {
    p == "text"@ || p == "weight"@
}

/// A prompt field name gives back its index and its part.
pub proof fn lemma_prompt_field_name_injective(i: nat, j: nat, p: Seq<char>, q: Seq<char>)
    requires
        is_prompt_part(p),
        is_prompt_part(q),
        prompt_field_name(i, p) == prompt_field_name(j, q),
    ensures
        i == j,
        p == q,
{
    reveal_strlit("text_prompts[");
    reveal_strlit("][");
    reveal_strlit("]");
    reveal_strlit("text");
    reveal_strlit("weight");
    let a = "text_prompts["@;
    let d1 = decimal(i);
    let d2 = decimal(j);
    let n1 = prompt_field_name(i, p);
    let n2 = prompt_field_name(j, q);
    lemma_decimal_digits(i);
    lemma_decimal_digits(j);
    assert(a.len() == 13);
    assert forall|k: int| 0 <= k < d1.len() implies n1[13 + k] == d1[k] by {}
    assert forall|k: int| 0 <= k < d2.len() implies n2[13 + k] == d2[k] by {}
    assert(n1[13 + d1.len() as int] == ']');
    assert(n2[13 + d2.len() as int] == ']');
    if d1.len() < d2.len() {
        assert(is_digit(d2[d1.len() as int]));
        assert(n2[13 + d1.len() as int] == d2[d1.len() as int]);
        assert(false);
    }
    if d2.len() < d1.len() {
        assert(is_digit(d1[d2.len() as int]));
        assert(n1[13 + d2.len() as int] == d1[d2.len() as int]);
        assert(false);
    }
    assert(d1 =~= n1.subrange(13, 13 + d1.len() as int));
    assert(d2 =~= n2.subrange(13, 13 + d2.len() as int));
    lemma_decimal_injective(i, j);
    assert("]["@.len() == 2);
    assert("]"@.len() == 1);
    assert(n1.len() == 13 + d1.len() + 2 + p.len() + 1);
    assert(n2.len() == 13 + d2.len() + 2 + q.len() + 1);
    assert(p.len() == q.len());
}

/// Each name occurs at most once among the fields.
pub open spec fn names_distinct(fs: Seq<FieldView>) -> bool {
    forall|k1: int, k2: int|
        0 <= k1 < k2 < fs.len() ==> #[trigger] fs[k1].name != #[trigger] fs[k2].name
}

/// The fields of the first `n` prompts hold the text of each of them with a
/// non-empty text, and its weight if it has one; no other name of a prompt
/// field occurs, and no name occurs twice.
proof fn lemma_prompt_fields_decode(ps: Seq<TextPromptView>, n: nat)
    requires
        n <= ps.len(),
    ensures
        forall|i: nat|
            i < n && ps[i as int].text.len() > 0 ==> #[trigger] prompt_fields(ps, n).contains(
                text_field(prompt_field_name(i, "text"@), ps[i as int].text),
            ),
        forall|i: nat|
            i < n && ps[i as int].text.len() > 0 && ps[i as int].weight is Some
                ==> #[trigger] prompt_fields(ps, n).contains(
                text_field(prompt_field_name(i, "weight"@), ps[i as int].weight->Some_0),
            ),
        forall|k: int, i: nat, p: Seq<char>|
            0 <= k < prompt_fields(ps, n).len() && is_prompt_part(p) && #[trigger] prompt_fields(
                ps,
                n,
            )[k].name == #[trigger] prompt_field_name(i, p) ==> i < n && ps[i as int].text.len() > 0
                && (p == "weight"@ ==> ps[i as int].weight is Some),
        names_distinct(prompt_fields(ps, n)),
    decreases n,
{
    reveal_strlit("text");
    reveal_strlit("weight");
    if n > 0 {
        let m = (n - 1) as nat;
        lemma_prompt_fields_decode(ps, m);
        let old_fs = prompt_fields(ps, m);
        let new_fs = fields_of_prompt(m, ps[m as int]);
        let fs = prompt_fields(ps, n);
        assert(fs == old_fs + new_fs);
        // what was there stays
        assert forall|x: FieldView| old_fs.contains(x) implies fs.contains(x) by {
            let k = choose|k: int| 0 <= k < old_fs.len() && old_fs[k] == x;
            assert(fs[k] == x);
        }
        // the fields of prompt m
        if ps[m as int].text.len() > 0 {
            let t = text_field(prompt_field_name(m, "text"@), ps[m as int].text);
            assert(fs[old_fs.len() as int] == t);
            assert(fs.contains(t));
            if ps[m as int].weight is Some {
                let w = text_field(prompt_field_name(m, "weight"@), ps[m as int].weight->Some_0);
                assert(fs[old_fs.len() + 1int] == w);
                assert(fs.contains(w));
            }
        }
        // every new field is named after prompt m
        assert forall|k: int, i: nat, p: Seq<char>|
            0 <= k < fs.len() && is_prompt_part(p) && #[trigger] fs[k].name
                == #[trigger] prompt_field_name(i, p) implies i < n && ps[i as int].text.len() > 0
            && (p == "weight"@ ==> ps[i as int].weight is Some) by {
            if k < old_fs.len() {
                assert(old_fs[k] == fs[k]);
            } else {
                let e = k - old_fs.len();
                assert(fs[k] == new_fs[e]);
                if e == 0 {
                    lemma_prompt_field_name_injective(m, i, "text"@, p);
                } else {
                    lemma_prompt_field_name_injective(m, i, "weight"@, p);
                }
            }
        }
        assert forall|k1: int, k2: int|
            0 <= k1 < k2 < fs.len() implies #[trigger] fs[k1].name != #[trigger] fs[k2].name by {
            if k2 >= old_fs.len() {
                let e2 = k2 - old_fs.len();
                let p2 = if e2 == 0 { "text"@ } else { "weight"@ };
                assert(fs[k2] == new_fs[e2]);
                assert(fs[k2].name == prompt_field_name(m, p2));
                if k1 < old_fs.len() {
                    assert(old_fs[k1] == fs[k1]);
                    if fs[k1].name == fs[k2].name {
                        assert(old_fs[k1].name == prompt_field_name(m, p2));
                    }
                } else {
                    assert(fs[k1] == new_fs[0]);
                    assert(e2 == 1);
                    if fs[k1].name == fs[k2].name {
                        lemma_prompt_field_name_injective(m, m, "text"@, "weight"@);
                    }
                }
            } else {
                assert(old_fs[k1] == fs[k1]);
                assert(old_fs[k2] == fs[k2]);
            }
        }
    }
}

/// Decoding the field names of encoded prompts gives the prompts back: the
/// field `text_prompts[i][text]` holds the text of prompt `i` and
/// `text_prompts[i][weight]` its weight, each exactly once, for every prompt
/// with a non-empty text; a prompt with an empty text, or an index past the
/// last prompt, names no field, and a weight field exists only where the
/// prompt has a weight.
pub proof fn lemma_prompt_fields_round_trip(ps: Seq<TextPromptView>)
    ensures
        forall|i: nat|
            i < ps.len() && ps[i as int].text.len() > 0 ==> #[trigger] encode_prompts(ps).contains(
                text_field(prompt_field_name(i, "text"@), ps[i as int].text),
            ),
        forall|i: nat|
            i < ps.len() && ps[i as int].text.len() > 0 && ps[i as int].weight is Some
                ==> #[trigger] encode_prompts(ps).contains(
                text_field(prompt_field_name(i, "weight"@), ps[i as int].weight->Some_0),
            ),
        forall|k: int, i: nat, p: Seq<char>|
            0 <= k < encode_prompts(ps).len() && is_prompt_part(p) && #[trigger] encode_prompts(
                ps,
            )[k].name == #[trigger] prompt_field_name(i, p) ==> i < ps.len() && ps[i as int].text.len()
                > 0 && (p == "weight"@ ==> ps[i as int].weight is Some),
        names_distinct(encode_prompts(ps)),
{
    lemma_prompt_fields_decode(ps, ps.len());
}

} // verus!
