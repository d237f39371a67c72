//! How scalar values are written in form fields: integers in decimal, and
//! the request enums by the names the API gives them.
use vstd::prelude::*;
use crate::types::{ClipGuidancePreset, MaskSource, Sampler, StylePreset};

verus! {

/// The character of a decimal digit.
pub open spec fn digit_char(d: nat) -> char {
    if d == 0 { '0' }
    else if d == 1 { '1' }
    else if d == 2 { '2' }
    else if d == 3 { '3' }
    else if d == 4 { '4' }
    else if d == 5 { '5' }
    else if d == 6 { '6' }
    else if d == 7 { '7' }
    else if d == 8 { '8' }
    else { '9' }
}

/// `n` in decimal, most significant digit first, without leading zeros.
pub open spec fn decimal(n: nat) -> Seq<char>
    decreases n,
{
    if n < 10 {
        seq![digit_char(n)]
    } else {
        decimal(n / 10) + seq![digit_char(n % 10)]
    }
}

/// A decimal digit character.
pub open spec fn is_digit(c: char) -> bool {
    '0' <= c && c <= '9'
}

proof fn lemma_digit_char(a: nat, b: nat)
    requires
        a < 10,
        b < 10,
    ensures
        is_digit(digit_char(a)),
        digit_char(a) == digit_char(b) ==> a == b,
{
}

/// The decimal text of a number is not empty and holds only digits.
pub proof fn lemma_decimal_digits(n: nat)
    ensures
        decimal(n).len() >= 1,
        forall|k: int| 0 <= k < decimal(n).len() ==> is_digit(#[trigger] decimal(n)[k]),
    decreases n,
{
    lemma_digit_char(n % 10, 0);
    if n >= 10 {
        lemma_decimal_digits(n / 10);
        let d = decimal(n / 10);
        assert forall|k: int| 0 <= k < decimal(n).len() implies is_digit(#[trigger] decimal(n)[k]) by {
            if k < d.len() {
                assert(decimal(n)[k] == d[k]);
            }
        }
    }
}

/// Different numbers have different decimal texts.
pub proof fn lemma_decimal_injective(a: nat, b: nat)
    requires
        decimal(a) == decimal(b),
    ensures
        a == b,
    decreases a,
{
    lemma_decimal_digits(a / 10);
    lemma_decimal_digits(b / 10);
    if a < 10 && b < 10 {
        assert(decimal(a)[0] == digit_char(a));
        assert(decimal(b)[0] == digit_char(b));
        lemma_digit_char(a, b);
    } else if a >= 10 && b >= 10 {
        let da = decimal(a);
        let db = decimal(b);
        assert(da.last() == digit_char(a % 10));
        assert(db.last() == digit_char(b % 10));
        lemma_digit_char(a % 10, b % 10);
        assert(decimal(a / 10) =~= da.drop_last());
        assert(decimal(b / 10) =~= db.drop_last());
        lemma_decimal_injective(a / 10, b / 10);
        assert(a == (a / 10) * 10 + a % 10);
        assert(b == (b / 10) * 10 + b % 10);
    } else {
        assert(decimal(a).len() != decimal(b).len());
    }
}

fn digit_str(d: u64) -> (r: &'static str)
    requires
        d < 10,
    ensures
        r@ == seq![digit_char(d as nat)],
{
    proof {
        reveal_strlit("0");
        reveal_strlit("1");
        reveal_strlit("2");
        reveal_strlit("3");
        reveal_strlit("4");
        reveal_strlit("5");
        reveal_strlit("6");
        reveal_strlit("7");
        reveal_strlit("8");
        reveal_strlit("9");
    }
    if d == 0 { "0" }
    else if d == 1 { "1" }
    else if d == 2 { "2" }
    else if d == 3 { "3" }
    else if d == 4 { "4" }
    else if d == 5 { "5" }
    else if d == 6 { "6" }
    else if d == 7 { "7" }
    else if d == 8 { "8" }
    else { "9" }
}

/// Writes `n` in decimal.
pub fn decimal_text(n: u64) -> (r: String)
    ensures
        r@ == decimal(n as nat),
    decreases n,
{
    if n < 10 {
        String::from_str(digit_str(n))
    } else {
        let mut s = decimal_text(n / 10);
        s.append(digit_str(n % 10));
        s
    }
}

pub open spec fn clip_guidance_preset_name(p: ClipGuidancePreset) -> Seq<char> {
    match p {
        ClipGuidancePreset::FastBlue => "FAST_BLUE"@,
        ClipGuidancePreset::FastGreen => "FAST_GREEN"@,
        ClipGuidancePreset::NoGuidance => "NONE"@,
        ClipGuidancePreset::Simple => "SIMPLE"@,
        ClipGuidancePreset::Slow => "SLOW"@,
        ClipGuidancePreset::Slower => "SLOWER"@,
        ClipGuidancePreset::Slowest => "SLOWEST"@,
    }
}

pub open spec fn sampler_name(s: Sampler) -> Seq<char> {
    match s {
        Sampler::Ddim => "DDIM"@,
        Sampler::Ddpm => "DDPM"@,
        Sampler::KDpmpp2m => "K_DPMPP_2M"@,
        Sampler::KDpmpp2sAncestral => "K_DPMPP_2S_ANCESTRAL"@,
        Sampler::KDpm2 => "K_DPM_2"@,
        Sampler::KDpm2Ancestral => "K_DPM_2_ANCESTRAL"@,
        Sampler::KEuler => "K_EULER"@,
        Sampler::KEulerAncestral => "K_EULER_ANCESTRAL"@,
        Sampler::KHeun => "K_HEUN"@,
        Sampler::KLms => "K_LMS"@,
    }
}

pub open spec fn style_preset_name(s: StylePreset) -> Seq<char> {
    match s {
        StylePreset::ThreeDModel => "3d-model"@,
        StylePreset::AnalogFilm => "analog-film"@,
        StylePreset::Anime => "anime"@,
        StylePreset::Cinematic => "cinematic"@,
        StylePreset::ComicBook => "comic-book"@,
        StylePreset::DigitalArt => "digital-art"@,
        StylePreset::Enhance => "enhance"@,
        StylePreset::FantasyArt => "fantasy-art"@,
        StylePreset::Isometric => "isometric"@,
        StylePreset::LineArt => "line-art"@,
        StylePreset::LowPoly => "low-poly"@,
        StylePreset::ModelingCompound => "modeling-compound"@,
        StylePreset::NeonPunk => "neon-punk"@,
        StylePreset::Origami => "origami"@,
        StylePreset::Photographic => "photographic"@,
        StylePreset::PixelArt => "pixel-art"@,
        StylePreset::TileTexture => "tile-texture"@,
    }
}

pub open spec fn mask_source_name(m: MaskSource) -> Seq<char> {
    match m {
        MaskSource::MaskImageBlack => "MASK_IMAGE_BLACK"@,
        MaskSource::MaskImageWhite => "MASK_IMAGE_WHITE"@,
        MaskSource::InitImageAlpha => "INIT_IMAGE_ALPHA"@,
    }
}

impl ClipGuidancePreset {
    /// The name the API gives this preset.
    pub fn to_string(&self) -> (r: String)
        ensures
            r@ == clip_guidance_preset_name(*self),
    {
        String::from_str(
            match self {
                ClipGuidancePreset::FastBlue => "FAST_BLUE",
                ClipGuidancePreset::FastGreen => "FAST_GREEN",
                ClipGuidancePreset::NoGuidance => "NONE",
                ClipGuidancePreset::Simple => "SIMPLE",
                ClipGuidancePreset::Slow => "SLOW",
                ClipGuidancePreset::Slower => "SLOWER",
                ClipGuidancePreset::Slowest => "SLOWEST",
            },
        )
    }
}

impl Sampler {
    /// The name the API gives this sampler.
    pub fn to_string(&self) -> (r: String)
        ensures
            r@ == sampler_name(*self),
    {
        String::from_str(
            match self {
                Sampler::Ddim => "DDIM",
                Sampler::Ddpm => "DDPM",
                Sampler::KDpmpp2m => "K_DPMPP_2M",
                Sampler::KDpmpp2sAncestral => "K_DPMPP_2S_ANCESTRAL",
                Sampler::KDpm2 => "K_DPM_2",
                Sampler::KDpm2Ancestral => "K_DPM_2_ANCESTRAL",
                Sampler::KEuler => "K_EULER",
                Sampler::KEulerAncestral => "K_EULER_ANCESTRAL",
                Sampler::KHeun => "K_HEUN",
                Sampler::KLms => "K_LMS",
            },
        )
    }
}

impl StylePreset {
    /// The name the API gives this style preset.
    pub fn to_string(&self) -> (r: String)
        ensures
            r@ == style_preset_name(*self),
    {
        String::from_str(
            match self {
                StylePreset::ThreeDModel => "3d-model",
                StylePreset::AnalogFilm => "analog-film",
                StylePreset::Anime => "anime",
                StylePreset::Cinematic => "cinematic",
                StylePreset::ComicBook => "comic-book",
                StylePreset::DigitalArt => "digital-art",
                StylePreset::Enhance => "enhance",
                StylePreset::FantasyArt => "fantasy-art",
                StylePreset::Isometric => "isometric",
                StylePreset::LineArt => "line-art",
                StylePreset::LowPoly => "low-poly",
                StylePreset::ModelingCompound => "modeling-compound",
                StylePreset::NeonPunk => "neon-punk",
                StylePreset::Origami => "origami",
                StylePreset::Photographic => "photographic",
                StylePreset::PixelArt => "pixel-art",
                StylePreset::TileTexture => "tile-texture",
            },
        )
    }
}

impl MaskSource {
    /// The name the API gives this mask source.
    pub fn to_string(&self) -> (r: String)
        ensures
            r@ == mask_source_name(*self),
    {
        String::from_str(
            match self {
                MaskSource::MaskImageBlack => "MASK_IMAGE_BLACK",
                MaskSource::MaskImageWhite => "MASK_IMAGE_WHITE",
                MaskSource::InitImageAlpha => "INIT_IMAGE_ALPHA",
            },
        )
    }
}

} // verus!
