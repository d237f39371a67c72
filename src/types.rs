//! Values of API requests and responses.
use vstd::prelude::*;

verus! {

#[derive(Debug, Clone, PartialEq)]
pub struct OrganizationMembership {
    pub id: String,
    pub is_default: bool,
    pub name: String,
    pub role: String,
}

#[derive(Debug, Clone, PartialEq)]
pub struct AccountResponseBody {
    /// The user's email
    pub email: String,
    /// The user's ID
    pub id: String,
    /// The user's organizations
    pub organizations: Vec<OrganizationMembership>,
    /// The user's profile picture
    pub profile_picture: Option<String>,
}

#[allow(non_camel_case_types, clippy::upper_case_acronyms)]
#[derive(Debug, Clone, Copy, PartialEq, Eq, Structural)]
pub enum EngineType {
    AUDIO,
    CLASSIFICATION,
    PICTURE,
    STORAGE,
    TEXT,
    VIDEO,
}

#[derive(Debug, Clone, PartialEq)]
pub struct Engine {
    /// Unique identifier for the engine
    pub id: String,
    /// Name of the engine
    pub name: String,
    pub description: String,
    /// The type of content this engine produces
    pub engine_type: EngineType,
}

/// Text prompt for image generation
#[derive(Debug, Clone, PartialEq)]
pub struct TextPrompt {
    /// The prompt itself
    pub text: String,
    /// Weight of the prompt, as the decimal text it is sent as (negative for negative prompts)
    pub weight: Option<String>,
}

pub struct TextPromptView {
    pub text: Seq<char>,
    pub weight: Option<Seq<char>>,
}

pub open spec fn opt_view(o: Option<String>) -> Option<Seq<char>> {
    match o {
        Some(s) => Some(s@),
        None => None,
    }
}

impl View for TextPrompt {
    type V = TextPromptView;

    open spec fn view(&self) -> TextPromptView {
        TextPromptView { text: self.text@, weight: opt_view(self.weight) }
    }
}

impl TextPrompt {
    /// A prompt without a weight.
    pub fn new(text: &str) -> (r: TextPrompt)
        ensures
            r@ == (TextPromptView { text: text@, weight: None }),
    {
        TextPrompt { text: String::from_str(text), weight: None }
    }

    /// A prompt with the weight written as `weight`.
    pub fn weighted(text: &str, weight: &str) -> (r: TextPrompt)
        ensures
            r@ == (TextPromptView { text: text@, weight: Some(weight@) }),
    {
        TextPrompt { text: String::from_str(text), weight: Some(String::from_str(weight)) }
    }
}

#[derive(Debug, Clone, PartialEq, Default)]
pub struct TextPrompts {
    pub text_prompts: Vec<TextPrompt>,
}

impl TextPrompts {
    pub open spec fn prompts(&self) -> Seq<TextPromptView> {
        self.text_prompts@.map_values(|p: TextPrompt| p@)
    }
}

#[derive(Debug, Clone, Copy, PartialEq, Eq, Structural)]
pub enum ClipGuidancePreset {
    FastBlue,
    FastGreen,
    NoGuidance,
    Simple,
    Slow,
    Slower,
    Slowest,
}

#[derive(Debug, Clone, Copy, PartialEq, Eq, Structural)]
pub enum Sampler {
    Ddim,
    Ddpm,
    KDpmpp2m,
    KDpmpp2sAncestral,
    KDpm2,
    KDpm2Ancestral,
    KEuler,
    KEulerAncestral,
    KHeun,
    KLms,
}

#[derive(Debug, Clone, Copy, PartialEq, Eq, Structural)]
pub enum StylePreset {
    ThreeDModel,
    AnalogFilm,
    Anime,
    Cinematic,
    ComicBook,
    DigitalArt,
    Enhance,
    FantasyArt,
    Isometric,
    LineArt,
    LowPoly,
    ModelingCompound,
    NeonPunk,
    Origami,
    Photographic,
    PixelArt,
    TileTexture,
}

/// How a generation finished.
#[derive(Debug, Clone, Copy, PartialEq, Eq, Structural)]
pub enum FinishReason {
    /// The request activated the API's safety filters.
    ContentFiltered,
    /// The generation failed on the server.
    Error,
    Success,
}

/// One generated image, base64-encoded.
#[derive(Debug, Clone, PartialEq)]
pub struct Image {
    pub base64: String,
    pub finish_reason: FinishReason,
    pub seed: i64,
}

/// The images a generation call returned.
#[derive(Debug, Clone, PartialEq)]
pub struct Artifacts {
    pub artifacts: Vec<Image>,
}

#[derive(Debug, Clone, Copy, PartialEq, Eq, Structural)]
pub enum InitImageMode {
    ImageStrength,
    StepSchedule,
}

impl Default for InitImageMode {
    fn default() -> (r: InitImageMode)
        ensures
            r == InitImageMode::ImageStrength,
    {
        InitImageMode::ImageStrength
    }
}

/// Image used to initialize the diffusion process, by its path on disk.
#[derive(Debug, Clone, PartialEq, Default)]
pub struct InitImage {
    pub path: String,
}

impl InitImage {
    pub fn new(path: &str) -> (r: InitImage)
        ensures
            r.path@ == path@,
    {
        InitImage { path: String::from_str(path) }
    }
}

/// Image to upscale, by its path on disk.
#[derive(Debug, Clone, PartialEq, Default)]
pub struct InputImage {
    pub path: String,
}

impl InputImage {
    pub fn new(path: &str) -> (r: InputImage)
        ensures
            r.path@ == path@,
    {
        InputImage { path: String::from_str(path) }
    }
}

/// Grayscale mask image, by its path on disk.
#[derive(Debug, Clone, PartialEq, Default)]
pub struct MaskImage {
    pub path: String,
}

impl MaskImage {
    pub fn new(path: &str) -> (r: MaskImage)
        ensures
            r.path@ == path@,
    {
        MaskImage { path: String::from_str(path) }
    }
}

#[derive(Debug, Clone, Copy, PartialEq, Eq, Structural)]
pub enum MaskSource {
    MaskImageBlack,
    MaskImageWhite,
    InitImageAlpha,
}

impl Default for MaskSource {
    fn default() -> (r: MaskSource)
        ensures
            r == MaskSource::MaskImageBlack,
    {
        MaskSource::MaskImageBlack
    }
}

/// Modify an image based on a text prompt. Fractional parameters hold the
/// decimal text they are sent as; `extras` holds JSON text.
#[derive(Debug, Clone, PartialEq, Default)]
pub struct ImageToImageRequestBody {
    pub text_prompts: TextPrompts,
    pub init_image: InitImage,
    /// Whether `image_strength` or `step_schedule_*` controls the influence of `init_image`.
    pub init_image_mode: Option<InitImageMode>,
    /// How much influence `init_image` has on the diffusion process.
    pub image_strength: Option<String>,
    /// Proportion of the start of the diffusion steps to skip.
    pub step_schedule_start: Option<String>,
    /// Proportion of the end of the diffusion steps to skip.
    pub step_schedule_end: Option<String>,
    /// How strictly the diffusion process adheres to the prompt text.
    pub cfg_scale: Option<u8>,
    pub clip_guidance_preset: Option<ClipGuidancePreset>,
    /// Which sampler to use for the diffusion process.
    pub sampler: Option<Sampler>,
    /// Number of images to generate.
    pub samples: Option<u8>,
    /// Random noise seed (omit this option or use `0` for a random seed).
    pub seed: Option<u32>,
    /// Number of diffusion steps to run.
    pub steps: Option<u32>,
    /// A style preset to guide the image model towards a particular style.
    pub style_preset: Option<StylePreset>,
    /// Extra parameters passed to the engine, as JSON text.
    pub extras: Option<String>,
}

#[derive(Debug, Clone, PartialEq, Default)]
pub struct RealESRGANUpscaleRequestBody {
    pub image: InputImage,
    /// Desired height of the output image.
    pub height: Option<u16>,
    /// Desired width of the output image.
    pub width: Option<u16>,
}

#[derive(Debug, Clone, PartialEq, Default)]
pub struct LatentUpscalerUpscaleRequestBody {
    pub image: InputImage,
    pub text_prompts: Option<TextPrompts>,
    /// Desired height of the output image.
    pub height: Option<u16>,
    /// Desired width of the output image.
    pub width: Option<u16>,
    /// How strictly the diffusion process adheres to the prompt text.
    pub cfg_scale: Option<u8>,
    /// Random noise seed (omit this option or use `0` for a random seed).
    pub seed: Option<u32>,
    /// Number of diffusion steps to run.
    pub steps: Option<u32>,
}

/// The body of an upscale call, by kind of upscaler engine.
#[derive(Debug, Clone, PartialEq)]
pub enum ImageToImageUpscaleBody {
    LatentUpscalerUpscaleRequestBody(LatentUpscalerUpscaleRequestBody),
    RealESRGANUpscaleRequestBody(RealESRGANUpscaleRequestBody),
}

/// Selectively modify portions of an image using a mask.
#[derive(Debug, Clone, PartialEq, Default)]
pub struct MaskingRequestBody {
    /// Image used to initialize the diffusion process, in lieu of random noise.
    pub init_image: InitImage,
    /// Where the mask comes from.
    pub mask_source: MaskSource,
    /// Optional grayscale mask, of the same dimensions as `init_image`.
    pub mask_image: Option<MaskImage>,
    pub text_prompts: TextPrompts,
    /// How strictly the diffusion process adheres to the prompt text.
    pub cfg_scale: Option<u8>,
    pub clip_guidance_preset: Option<ClipGuidancePreset>,
    /// Which sampler to use for the diffusion process.
    pub sampler: Option<Sampler>,
    /// Number of images to generate.
    pub samples: Option<u8>,
    /// Random noise seed (omit this option or use `0` for a random seed).
    pub seed: Option<u32>,
    /// Number of diffusion steps to run.
    pub steps: Option<u32>,
    /// A style preset to guide the image model towards a particular style.
    pub style_preset: Option<StylePreset>,
    /// Extra parameters passed to the engine, as JSON text.
    pub extras: Option<String>,
}

} // verus!
