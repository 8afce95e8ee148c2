//! The catalog of professional encoding presets: each names an encoder, the
//! options handed to it, and a pixel format.

use crate::text::{push_text, str_eq, texts};
use vstd::prelude::*;

verus! {

/// A professional preset: a fully specified encoding selected by name.
#[derive(Debug)]
pub struct AdobePreset {
    pub name: String,
    pub description: String,
    pub encoder: String,
    pub encoder_options: Vec<String>,
    pub pixel_format: String,
}

/// A preset as contracts see it.
pub struct PresetView {
    pub name: Seq<char>,
    pub description: Seq<char>,
    pub encoder: Seq<char>,
    pub encoder_options: Seq<Seq<char>>,
    pub pixel_format: Seq<char>,
}

impl View for AdobePreset {
    type V = PresetView;

    open spec fn view(&self) -> PresetView {
        PresetView {
            name: self.name@,
            description: self.description@,
            encoder: self.encoder@,
            encoder_options: texts(self.encoder_options@),
            pixel_format: self.pixel_format@,
        }
    }
}

impl Clone for AdobePreset {
    fn clone(&self) -> (r: Self)
        ensures
            r@ == self@,
    {
        AdobePreset {
            name: self.name.clone(),
            description: self.description.clone(),
            encoder: self.encoder.clone(),
            encoder_options: crate::text::clone_strings(&self.encoder_options),
            pixel_format: self.pixel_format.clone(),
        }
    }
}

/// The views of a list of presets, in order.
pub open spec fn preset_views(v: Seq<AdobePreset>) -> Seq<PresetView> {
    Seq::new(v.len(), |i: int| v[i]@)
}

/// A catalog row whose encoder takes one option and its value.
pub open spec fn row(
    name: Seq<char>,
    description: Seq<char>,
    encoder: Seq<char>,
    option: Seq<char>,
    value: Seq<char>,
    pixel_format: Seq<char>,
) -> PresetView {
    PresetView { name, description, encoder, encoder_options: seq![option, value], pixel_format }
}

/// The catalog, in the order in which it is offered.
pub open spec fn preset_catalog() -> Seq<PresetView> {
    seq![
        row(
            "prores_422"@,
            "Apple ProRes 422 (High Quality for Premiere Pro / Final Cut)"@,
            "prores_ks"@,
            "-profile:v"@,
            "2"@,
            "yuv422p10le"@,
        ),
        row(
            "prores_422_hq"@,
            "Apple ProRes 422 HQ (Highest Quality for Premiere Pro / Final Cut)"@,
            "prores_ks"@,
            "-profile:v"@,
            "3"@,
            "yuv422p10le"@,
        ),
        PresetView {
            name: "prores_4444"@,
            description: "Apple ProRes 4444 (With Alpha Channel)"@,
            encoder: "prores_ks"@,
            encoder_options: seq!["-profile:v"@, "4"@, "-alpha_bits"@, "16"@],
            pixel_format: "yuva444p10le"@,
        },
        row(
            "prores_proxy"@,
            "Apple ProRes Proxy (Lightweight Editing)"@,
            "prores_ks"@,
            "-profile:v"@,
            "0"@,
            "yuv422p"@,
        ),
        row(
            "dnxhd_1080p_220"@,
            "DNxHD 220 Mbps 1080p (Broadcast Quality)"@,
            "dnxhd"@,
            "-b:v"@,
            "220M"@,
            "yuv422p"@,
        ),
        row(
            "dnxhd_1080p_145"@,
            "DNxHD 145 Mbps 1080p (High Quality)"@,
            "dnxhd"@,
            "-b:v"@,
            "145M"@,
            "yuv422p"@,
        ),
        row(
            "dnxhr_hq"@,
            "DNxHR HQ (High Quality for 4K/UHD)"@,
            "dnxhd"@,
            "-profile:v"@,
            "dnxhr_hq"@,
            "yuv422p"@,
        ),
        row(
            "dnxhr_sq"@,
            "DNxHR SQ (Standard Quality)"@,
            "dnxhd"@,
            "-profile:v"@,
            "dnxhr_sq"@,
            "yuv422p"@,
        ),
        row(
            "dnxhr_lb"@,
            "DNxHR LB (Low Bandwidth / Proxy)"@,
            "dnxhd"@,
            "-profile:v"@,
            "dnxhr_lb"@,
            "yuv422p"@,
        ),
        row(
            "cineform_high"@,
            "GoPro CineForm High (After Effects Compatible)"@,
            "cfhd"@,
            "-quality"@,
            "film3+"@,
            "yuv422p10le"@,
        ),
        row(
            "cineform_medium"@,
            "GoPro CineForm Medium"@,
            "cfhd"@,
            "-quality"@,
            "film3"@,
            "yuv422p"@,
        ),
        row(
            "cineform_low"@,
            "GoPro CineForm Low (Proxy)"@,
            "cfhd"@,
            "-quality"@,
            "film2"@,
            "yuv422p"@,
        ),
    ]
}

/// The first preset of `catalog` that is called `name`.
pub open spec fn find_in(catalog: Seq<PresetView>, name: Seq<char>) -> Option<PresetView>
    decreases catalog.len(),
{
    if catalog.len() == 0 {
        None
    } else if catalog[0].name == name {
        Some(catalog[0])
    } else {
        find_in(catalog.drop_first(), name)
    }
}

/// The preset that `name` selects, if the catalog holds one of that name.
pub open spec fn preset_named(name: Seq<char>) -> Option<PresetView> {
    find_in(preset_catalog(), name)
}

fn make_preset(
    name: &str,
    description: &str,
    encoder: &str,
    option: &str,
    value: &str,
    pixel_format: &str,
) -> (p: AdobePreset)
    ensures
        p@ == row(name@, description@, encoder@, option@, value@, pixel_format@),
{
    let mut encoder_options: Vec<String> = Vec::new();
    push_text(&mut encoder_options, option);
    push_text(&mut encoder_options, value);
    assert(texts(encoder_options@) =~= seq![option@, value@]);
    AdobePreset {
        name: name.to_owned(),
        description: description.to_owned(),
        encoder: encoder.to_owned(),
        encoder_options,
        pixel_format: pixel_format.to_owned(),
    }
}

/// The catalog of professional presets.
pub fn get_adobe_presets() -> (presets: Vec<AdobePreset>)
    ensures
        preset_views(presets@) == preset_catalog(),
{
    let mut presets: Vec<AdobePreset> = Vec::new();
    presets.push(
        make_preset(
            "prores_422",
            "Apple ProRes 422 (High Quality for Premiere Pro / Final Cut)",
            "prores_ks",
            "-profile:v",
            "2",
            "yuv422p10le",
        ),
    );
    presets.push(
        make_preset(
            "prores_422_hq",
            "Apple ProRes 422 HQ (Highest Quality for Premiere Pro / Final Cut)",
            "prores_ks",
            "-profile:v",
            "3",
            "yuv422p10le",
        ),
    );
    let mut alpha = make_preset(
        "prores_4444",
        "Apple ProRes 4444 (With Alpha Channel)",
        "prores_ks",
        "-profile:v",
        "4",
        "yuva444p10le",
    );
    push_text(&mut alpha.encoder_options, "-alpha_bits");
    push_text(&mut alpha.encoder_options, "16");
    assert(alpha@.encoder_options =~= seq!["-profile:v"@, "4"@, "-alpha_bits"@, "16"@]);
    presets.push(alpha);
    presets.push(
        make_preset(
            "prores_proxy",
            "Apple ProRes Proxy (Lightweight Editing)",
            "prores_ks",
            "-profile:v",
            "0",
            "yuv422p",
        ),
    );
    presets.push(
        make_preset(
            "dnxhd_1080p_220",
            "DNxHD 220 Mbps 1080p (Broadcast Quality)",
            "dnxhd",
            "-b:v",
            "220M",
            "yuv422p",
        ),
    );
    presets.push(
        make_preset(
            "dnxhd_1080p_145",
            "DNxHD 145 Mbps 1080p (High Quality)",
            "dnxhd",
            "-b:v",
            "145M",
            "yuv422p",
        ),
    );
    presets.push(
        make_preset(
            "dnxhr_hq",
            "DNxHR HQ (High Quality for 4K/UHD)",
            "dnxhd",
            "-profile:v",
            "dnxhr_hq",
            "yuv422p",
        ),
    );
    presets.push(
        make_preset(
            "dnxhr_sq",
            "DNxHR SQ (Standard Quality)",
            "dnxhd",
            "-profile:v",
            "dnxhr_sq",
            "yuv422p",
        ),
    );
    presets.push(
        make_preset(
            "dnxhr_lb",
            "DNxHR LB (Low Bandwidth / Proxy)",
            "dnxhd",
            "-profile:v",
            "dnxhr_lb",
            "yuv422p",
        ),
    );
    presets.push(
        make_preset(
            "cineform_high",
            "GoPro CineForm High (After Effects Compatible)",
            "cfhd",
            "-quality",
            "film3+",
            "yuv422p10le",
        ),
    );
    presets.push(
        make_preset(
            "cineform_medium",
            "GoPro CineForm Medium",
            "cfhd",
            "-quality",
            "film3",
            "yuv422p",
        ),
    );
    presets.push(
        make_preset(
            "cineform_low",
            "GoPro CineForm Low (Proxy)",
            "cfhd",
            "-quality",
            "film2",
            "yuv422p",
        ),
    );
    assert(preset_views(presets@) =~= preset_catalog());
    presets
}

/// The first preset of `presets` that is called `name`.
pub fn find_preset_in(presets: &Vec<AdobePreset>, name: &str) -> (found: Option<AdobePreset>)
    ensures
        match found {
            Some(p) => find_in(preset_views(presets@), name@) == Some(p@),
            None => find_in(preset_views(presets@), name@) is None,
        },
{
    let ghost all = preset_views(presets@);
    let mut i: usize = 0;
    assert(all.skip(0) =~= all);
    while i < presets.len()
        invariant
            i <= presets.len(),
            all == preset_views(presets@),
            find_in(all, name@) == find_in(all.skip(i as int), name@),
        decreases presets.len() - i,
    {
        let ghost rest = all.skip(i as int);
        assert(rest[0] == presets@[i as int]@);
        assert(rest.drop_first() =~= all.skip(i + 1));
        if str_eq(presets[i].name.as_str(), name) {
            return Some(presets[i].clone());
        }
        i = i + 1;
    }
    None
}

/// The catalog's preset of the given name, if it has one.
pub fn resolve_preset(name: &str) -> (found: Option<AdobePreset>)
    ensures
        match found {
            Some(p) => preset_named(name@) == Some(p@),
            None => preset_named(name@) is None,
        },
{
    let presets = get_adobe_presets();
    find_preset_in(&presets, name)
}

/// A preset that a name selects carries that name and stands in the
/// catalog; a name that selects none is the name of no preset there.
pub proof fn lemma_find_in_sound(catalog: Seq<PresetView>, name: Seq<char>)
    ensures
        match find_in(catalog, name) {
            Some(p) => p.name == name && catalog.contains(p),
            None => forall|i: int| 0 <= i < catalog.len() ==> (#[trigger] catalog[i]).name != name,
        },
    decreases catalog.len(),
{
    if catalog.len() == 0 {
    } else if catalog[0].name == name {
        assert(catalog[0] == catalog[0]);
    } else {
        let rest = catalog.drop_first();
        lemma_find_in_sound(rest, name);
        match find_in(rest, name) {
            Some(p) => {
                let j = choose|j: int| 0 <= j < rest.len() && rest[j] == p;
                assert(catalog[j + 1] == p);
            },
            None => {
                assert forall|i: int| 0 <= i < catalog.len() implies (#[trigger] catalog[i]).name
                    != name by {
                    if i > 0 {
                        assert(rest[i - 1] == catalog[i]);
                    }
                }
            },
        }
    }
}

} // verus!
