use stabilityai::multipart::{FieldValue, FormField};
use stabilityai::types::{
    ClipGuidancePreset, ImageToImageRequestBody, ImageToImageUpscaleBody, InitImage, InitImageMode,
    InputImage, LatentUpscalerUpscaleRequestBody, MaskImage, MaskSource, MaskingRequestBody,
    RealESRGANUpscaleRequestBody, Sampler, StylePreset, TextPrompt, TextPrompts,
};
use stabilityai::wire::decimal_text;

fn text(name: &str, value: &str) -> FormField {
    FormField { name: name.to_string(), value: FieldValue::Text(value.to_string()) }
}

fn file(name: &str, path: &str) -> FormField {
    FormField { name: name.to_string(), value: FieldValue::File(path.to_string()) }
}

#[test]
fn decimal_text_writes_integers() {
    assert_eq!(decimal_text(0), "0");
    assert_eq!(decimal_text(7), "7");
    assert_eq!(decimal_text(10), "10");
    assert_eq!(decimal_text(1024), "1024");
    assert_eq!(decimal_text(u32::MAX as u64), "4294967295");
    assert_eq!(decimal_text(u64::MAX), "18446744073709551615");
}

#[test]
fn enum_wire_names() {
    assert_eq!(ClipGuidancePreset::FastBlue.to_string(), "FAST_BLUE");
    assert_eq!(ClipGuidancePreset::NoGuidance.to_string(), "NONE");
    assert_eq!(ClipGuidancePreset::Slowest.to_string(), "SLOWEST");
    assert_eq!(Sampler::KDpmpp2sAncestral.to_string(), "K_DPMPP_2S_ANCESTRAL");
    assert_eq!(Sampler::KLms.to_string(), "K_LMS");
    assert_eq!(StylePreset::ThreeDModel.to_string(), "3d-model");
    assert_eq!(StylePreset::TileTexture.to_string(), "tile-texture");
    assert_eq!(MaskSource::MaskImageBlack.to_string(), "MASK_IMAGE_BLACK");
    assert_eq!(MaskSource::InitImageAlpha.to_string(), "INIT_IMAGE_ALPHA");
    assert_eq!(MaskSource::default(), MaskSource::MaskImageBlack);
    assert_eq!(InitImageMode::default(), InitImageMode::ImageStrength);
}

#[test]
fn image_to_image_fields_omit_absent_parameters() {
    let body = ImageToImageRequestBody {
        text_prompts: TextPrompts { text_prompts: vec![TextPrompt::weighted("a cat", "0.7")] },
        init_image: InitImage::new("/tmp/init.png"),
        init_image_mode: Some(InitImageMode::StepSchedule),
        image_strength: Some("0.35".to_string()),
        cfg_scale: Some(7),
        sampler: Some(Sampler::KEuler),
        seed: Some(4294967295),
        style_preset: Some(StylePreset::Anime),
        extras: Some("{\"a\":1}".to_string()),
        ..Default::default()
    };
    assert_eq!(
        body.form_fields(),
        vec![
            file("init_image", "/tmp/init.png"),
            text("text_prompts[0][text]", "a cat"),
            text("text_prompts[0][weight]", "0.7"),
            text("image_strength", "0.35"),
            text("cfg_scale", "7"),
            text("sampler", "K_EULER"),
            text("seed", "4294967295"),
            text("style_preset", "anime"),
            text("extras", "{\"a\":1}"),
        ]
    );
}

#[test]
fn image_to_image_fields_with_every_parameter() {
    let body = ImageToImageRequestBody {
        text_prompts: TextPrompts { text_prompts: vec![TextPrompt::new("x")] },
        init_image: InitImage::new("i.png"),
        init_image_mode: None,
        image_strength: None,
        step_schedule_start: Some("0.6".to_string()),
        step_schedule_end: Some("0.1".to_string()),
        cfg_scale: Some(0),
        clip_guidance_preset: Some(ClipGuidancePreset::FastGreen),
        sampler: Some(Sampler::Ddim),
        samples: Some(2),
        seed: Some(0),
        steps: Some(50),
        style_preset: Some(StylePreset::PixelArt),
        extras: None,
    };
    let names: Vec<String> = body.form_fields().into_iter().map(|f| f.name).collect();
    assert_eq!(
        names,
        vec![
            "init_image",
            "text_prompts[0][text]",
            "step_schedule_start",
            "step_schedule_end",
            "cfg_scale",
            "clip_guidance_preset",
            "sampler",
            "samples",
            "seed",
            "steps",
            "style_preset",
        ]
    );
}

#[test]
fn upscale_fields() {
    let esrgan = RealESRGANUpscaleRequestBody {
        image: InputImage::new("small.png"),
        height: None,
        width: Some(2048),
    };
    assert_eq!(
        ImageToImageUpscaleBody::RealESRGANUpscaleRequestBody(esrgan).form_fields(),
        vec![file("image", "small.png"), text("width", "2048")]
    );
    let latent = LatentUpscalerUpscaleRequestBody {
        image: InputImage::new("small.png"),
        text_prompts: Some(TextPrompts { text_prompts: vec![TextPrompt::new("sharp")] }),
        height: Some(1024),
        width: None,
        cfg_scale: Some(9),
        seed: Some(12),
        steps: Some(30),
    };
    assert_eq!(
        ImageToImageUpscaleBody::LatentUpscalerUpscaleRequestBody(latent).form_fields(),
        vec![
            file("image", "small.png"),
            text("height", "1024"),
            text("text_prompts[0][text]", "sharp"),
            text("seed", "12"),
            text("steps", "30"),
            text("cfg_scale", "9"),
        ]
    );
}

#[test]
fn masking_fields() {
    let body = MaskingRequestBody {
        init_image: InitImage::new("init.png"),
        mask_source: MaskSource::MaskImageWhite,
        mask_image: Some(MaskImage::new("mask.png")),
        text_prompts: TextPrompts { text_prompts: vec![TextPrompt::new("sea")] },
        samples: Some(1),
        clip_guidance_preset: Some(ClipGuidancePreset::NoGuidance),
        ..Default::default()
    };
    assert_eq!(
        body.form_fields(),
        vec![
            file("init_image", "init.png"),
            text("text_prompts[0][text]", "sea"),
            text("mask_source", "MASK_IMAGE_WHITE"),
            file("mask_image", "mask.png"),
            text("clip_guidance_preset", "NONE"),
            text("samples", "1"),
        ]
    );
    let alpha = MaskingRequestBody {
        init_image: InitImage::new("init.png"),
        mask_source: MaskSource::InitImageAlpha,
        ..Default::default()
    };
    assert_eq!(
        alpha.form_fields(),
        vec![file("init_image", "init.png"), text("mask_source", "INIT_IMAGE_ALPHA")]
    );
}
