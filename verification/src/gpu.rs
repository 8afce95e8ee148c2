//! Graphics adapters: telling real ones from virtual ones, naming their
//! vendor, and choosing the one to prefer.

use crate::decimal::{decimal_digits, push_decimal};
use crate::encoder::EncoderInfo;
use crate::text::{
    chars_contain_str, chars_of, has_prefix, has_substring, lemma_texts_push, lines_of, lowercase,
    split, split_lines, split_on, starts_with, texts, trimmed, uppercase,
};
use vstd::prelude::*;
use vstd::string::*;

verus! {

/// The vendor of a graphics adapter.
#[derive(Debug, Clone, Copy, PartialEq, Eq, Structural)]
pub enum GpuType {
    Nvidia,
    Intel,
    Amd,
    Unknown,
    /// No graphics adapter at all.
    NoGpu,
}

/// One graphics adapter of the host.
#[derive(Debug)]
pub struct GpuAdapter {
    pub id: String,
    pub name: String,
    pub gpu_type: GpuType,
    pub is_virtual: bool,
}

/// An adapter as contracts see it.
pub struct AdapterView {
    pub id: Seq<char>,
    pub name: Seq<char>,
    pub gpu_type: GpuType,
    pub is_virtual: bool,
}

impl View for GpuAdapter {
    type V = AdapterView;

    open spec fn view(&self) -> AdapterView {
        AdapterView {
            id: self.id@,
            name: self.name@,
            gpu_type: self.gpu_type,
            is_virtual: self.is_virtual,
        }
    }
}

impl Clone for GpuAdapter {
    fn clone(&self) -> (r: Self)
        ensures
            r@ == self@,
    {
        GpuAdapter {
            id: self.id.clone(),
            name: self.name.clone(),
            gpu_type: self.gpu_type,
            is_virtual: self.is_virtual,
        }
    }
}

/// What is known of the host's graphics hardware and encoders.
#[derive(Debug, Clone)]
pub struct GpuInfo {
    pub detected: bool,
    pub gpu_type: GpuType,
    pub name: String,
    pub primary_adapter_id: Option<String>,
    pub adapters: Vec<GpuAdapter>,
    pub available_encoders: Vec<EncoderInfo>,
}

/// The views of a list of adapters, in order.
pub open spec fn adapter_views(v: Seq<GpuAdapter>) -> Seq<AdapterView> {
    Seq::new(v.len(), |i: int| v[i]@)
}

/// Detects graphics hardware.
pub struct GpuDetector;

/// The lower-case name carries a mark of an adapter that is no hardware:
/// a remote, mirrored or emulated display.
pub open spec fn has_virtual_mark(lower: Seq<char>) -> bool {
    ||| has_substring(lower, "virtual"@)
    ||| has_substring(lower, "remote"@)
    ||| has_substring(lower, "basic display"@)
    ||| has_substring(lower, "microsoft basic"@)
    ||| has_substring(lower, "miracast"@)
    ||| has_substring(lower, "indirect display"@)
    ||| has_substring(lower, "displaylink"@)
    ||| has_substring(lower, "rdp"@)
    ||| has_substring(lower, "vmware"@)
    ||| has_substring(lower, "virtualbox"@)
    ||| has_substring(lower, "parallels"@)
    ||| has_substring(lower, "citrix"@)
    ||| has_substring(lower, "xen"@)
    ||| has_substring(lower, "dummy"@)
}

/// The vendor that an upper-case adapter name speaks of.
pub open spec fn vendor_in(upper: Seq<char>) -> GpuType {
    if has_substring(upper, "NVIDIA"@) || has_substring(upper, "GEFORCE"@) || has_substring(
        upper,
        "RTX"@,
    ) || has_substring(upper, "GTX"@) {
        GpuType::Nvidia
    } else if has_substring(upper, "AMD"@) || has_substring(upper, "RADEON"@) {
        GpuType::Amd
    } else if has_substring(upper, "INTEL"@) && (has_substring(upper, "ARC"@) || has_substring(
        upper,
        "UHD"@,
    ) || has_substring(upper, "HD GRAPHICS"@) || has_substring(upper, "IRIS"@)) {
        GpuType::Intel
    } else {
        GpuType::Unknown
    }
}

/// The upper-case name carries a mark of graphics built into a processor.
pub open spec fn has_integrated_mark(upper: Seq<char>) -> bool {
    ||| has_substring(upper, "UHD"@)
    ||| has_substring(upper, "HD GRAPHICS"@)
    ||| has_substring(upper, "IRIS"@)
    ||| has_substring(upper, "IRIS XE"@)
    ||| has_substring(upper, "RADEON GRAPHICS"@)
    ||| has_substring(upper, "INTEGRATED"@)
    ||| has_substring(upper, "APU"@)
}

/// What a vendor counts for when adapters are ranked.
pub open spec fn vendor_score(gpu_type: GpuType) -> int {
    match gpu_type {
        GpuType::Nvidia => 300,
        GpuType::Amd => 250,
        GpuType::Intel => 180,
        GpuType::Unknown => 100,
        GpuType::NoGpu => 0,
    }
}

/// What the product line in an upper-case name adds.
pub open spec fn series_score(upper: Seq<char>) -> int {
    if has_substring(upper, "RTX"@) {
        60
    } else if has_substring(upper, "GTX"@) {
        40
    } else if has_substring(upper, "ARC"@) {
        30
    } else if has_substring(upper, "RX "@) || has_substring(upper, "RADEON RX"@) {
        35
    } else {
        0
    }
}

/// The rank of an adapter with the given upper-case name and vendor: built-in
/// graphics lose 55.
pub open spec fn priority_of(upper: Seq<char>, gpu_type: GpuType) -> int {
    vendor_score(gpu_type) + series_score(upper) - if has_integrated_mark(upper) {
        55int
    } else {
        0int
    }
}

/// The rank of an adapter.
pub open spec fn adapter_priority(a: AdapterView) -> int {
    priority_of(uppercase(a.name), a.gpu_type)
}

/// The names without surrounding whitespace; those of which nothing is left
/// are dropped.
pub open spec fn cleaned_names(names: Seq<Seq<char>>) -> Seq<Seq<char>>
    decreases names.len(),
{
    if names.len() == 0 {
        Seq::empty()
    } else {
        let front = cleaned_names(names.drop_last());
        let name = trimmed(names.last());
        if name.len() > 0 {
            front.push(name)
        } else {
            front
        }
    }
}

/// The adapter for the name at place `index` of the cleaned list.
pub open spec fn adapter_for(index: nat, name: Seq<char>) -> AdapterView {
    AdapterView {
        id: "gpu-"@ + decimal_digits(index),
        name,
        gpu_type: vendor_in(uppercase(name)),
        is_virtual: false,
    }
}

/// The adapters for a cleaned list of names. Virtual adapters are left
/// out; the others are numbered by their place in the list.
pub open spec fn adapters_for(names: Seq<Seq<char>>) -> Seq<AdapterView>
    decreases names.len(),
{
    if names.len() == 0 {
        Seq::empty()
    } else {
        let front = adapters_for(names.drop_last());
        if has_virtual_mark(lowercase(names.last())) {
            front
        } else {
            front.push(adapter_for((names.len() - 1) as nat, names.last()))
        }
    }
}

/// The place of the adapter to prefer in a non-empty list: the last of
/// those with the highest rank.
pub open spec fn primary_index(adapters: Seq<AdapterView>) -> int
    decreases adapters.len(),
{
    if adapters.len() <= 1 {
        0
    } else {
        let best = primary_index(adapters.drop_last());
        if adapter_priority(adapters.last()) >= adapter_priority(adapters[best]) {
            adapters.len() - 1
        } else {
            best
        }
    }
}

impl GpuDetector {
    pub fn new() -> Self {
        GpuDetector
    }

    /// Whether a lower-case adapter name carries a mark of a virtual
    /// adapter.
    pub fn virtual_mark_in(lower: &str) -> (r: bool)
        ensures
            r == has_virtual_mark(lower@),
    {
        let text = chars_of(lower);
        chars_contain_str(&text, "virtual") || chars_contain_str(&text, "remote")
            || chars_contain_str(&text, "basic display") || chars_contain_str(
            &text,
            "microsoft basic",
        ) || chars_contain_str(&text, "miracast") || chars_contain_str(&text, "indirect display")
            || chars_contain_str(&text, "displaylink") || chars_contain_str(&text, "rdp")
            || chars_contain_str(&text, "vmware") || chars_contain_str(&text, "virtualbox")
            || chars_contain_str(&text, "parallels") || chars_contain_str(&text, "citrix")
            || chars_contain_str(&text, "xen") || chars_contain_str(&text, "dummy")
    }

    /// Whether an adapter of this name is virtual.
    pub fn is_virtual_adapter(name: &str) -> (r: bool)
        ensures
            r == has_virtual_mark(lowercase(name@)),
    {
        let lower = name.to_lowercase();
        GpuDetector::virtual_mark_in(lower.as_str())
    }

    /// The vendor that an upper-case adapter name speaks of.
    pub fn vendor_of_upper(upper: &str) -> (r: GpuType)
        ensures
            r == vendor_in(upper@),
    {
        let text = chars_of(upper);
        if chars_contain_str(&text, "NVIDIA") || chars_contain_str(&text, "GEFORCE")
            || chars_contain_str(&text, "RTX") || chars_contain_str(&text, "GTX") {
            GpuType::Nvidia
        } else if chars_contain_str(&text, "AMD") || chars_contain_str(&text, "RADEON") {
            GpuType::Amd
        } else if chars_contain_str(&text, "INTEL") && (chars_contain_str(&text, "ARC")
            || chars_contain_str(&text, "UHD") || chars_contain_str(&text, "HD GRAPHICS")
            || chars_contain_str(&text, "IRIS")) {
            GpuType::Intel
        } else {
            GpuType::Unknown
        }
    }

    /// The vendor of an adapter of this name.
    pub fn classify_gpu_name(name: &str) -> (r: GpuType)
        ensures
            r == vendor_in(uppercase(name@)),
    {
        let upper = name.to_uppercase();
        GpuDetector::vendor_of_upper(upper.as_str())
    }

    /// Whether an upper-case adapter name carries a mark of built-in
    /// graphics.
    pub fn integrated_mark_in(upper: &str) -> (r: bool)
        ensures
            r == has_integrated_mark(upper@),
    {
        let text = chars_of(upper);
        chars_contain_str(&text, "UHD") || chars_contain_str(&text, "HD GRAPHICS")
            || chars_contain_str(&text, "IRIS") || chars_contain_str(&text, "IRIS XE")
            || chars_contain_str(&text, "RADEON GRAPHICS") || chars_contain_str(
            &text,
            "INTEGRATED",
        ) || chars_contain_str(&text, "APU")
    }

    /// Whether an adapter of this name is likely built into a processor.
    pub fn is_likely_integrated(name: &str) -> (r: bool)
        ensures
            r == has_integrated_mark(uppercase(name@)),
    {
        let upper = name.to_uppercase();
        GpuDetector::integrated_mark_in(upper.as_str())
    }

    /// The rank of an adapter with the given upper-case name and vendor.
    pub fn priority_of_upper(upper: &str, gpu_type: GpuType) -> (score: i32)
        ensures
            score == priority_of(upper@, gpu_type),
    {
        let text = chars_of(upper);
        let mut score: i32 = match gpu_type {
            GpuType::Nvidia => 300,
            GpuType::Amd => 250,
            GpuType::Intel => 180,
            GpuType::Unknown => 100,
            GpuType::NoGpu => 0,
        };
        if chars_contain_str(&text, "RTX") {
            score = score + 60;
        } else if chars_contain_str(&text, "GTX") {
            score = score + 40;
        } else if chars_contain_str(&text, "ARC") {
            score = score + 30;
        } else if chars_contain_str(&text, "RX ") || chars_contain_str(&text, "RADEON RX") {
            score = score + 35;
        }
        if GpuDetector::integrated_mark_in(upper) {
            score = score - 55;
        }
        score
    }

    /// The rank of an adapter of this name and vendor: the higher, the more
    /// it is to be preferred.
    pub fn gpu_priority(name: &str, gpu_type: GpuType) -> (score: i32)
        ensures
            score == priority_of(uppercase(name@), gpu_type),
    {
        let upper = name.to_uppercase();
        GpuDetector::priority_of_upper(upper.as_str(), gpu_type)
    }

    /// Trims every name and drops those of which nothing is left.
    pub fn cleaned_non_empty_names(names: Vec<String>) -> (cleaned: Vec<String>)
        ensures
            texts(cleaned@) == cleaned_names(texts(names@)),
    {
        let mut cleaned: Vec<String> = Vec::new();
        let mut i: usize = 0;
        assert(texts(names@.take(0)) =~= Seq::<Seq<char>>::empty());
        assert(texts(cleaned@) =~= Seq::<Seq<char>>::empty());
        while i < names.len()
            invariant
                i <= names.len(),
                texts(cleaned@) == cleaned_names(texts(names@.take(i as int))),
            decreases names.len() - i,
        {
            proof {
                let before = texts(names@.take(i as int));
                let after = texts(names@.take(i + 1));
                assert(after.drop_last() =~= before);
                assert(after.last() == names@[i as int]@);
            }
            let name = names[i].as_str().trim();
            if !name.is_empty() {
                let owned = name.to_owned();
                proof {
                    lemma_texts_push(cleaned@, owned);
                }
                cleaned.push(owned);
            }
            i = i + 1;
        }
        assert(names@.take(names.len() as int) =~= names@);
        cleaned
    }

    /// The adapters for a cleaned list of names.
    pub fn adapters_for_cleaned(names: Vec<String>) -> (adapters: Vec<GpuAdapter>)
        ensures
            adapter_views(adapters@) == adapters_for(texts(names@)),
    {
        let mut adapters: Vec<GpuAdapter> = Vec::new();
        let mut i: usize = 0;
        assert(texts(names@.take(0)) =~= Seq::<Seq<char>>::empty());
        assert(adapter_views(adapters@) =~= Seq::<AdapterView>::empty());
        while i < names.len()
            invariant
                i <= names.len(),
                adapter_views(adapters@) == adapters_for(texts(names@.take(i as int))),
            decreases names.len() - i,
        {
            proof {
                let before = texts(names@.take(i as int));
                let after = texts(names@.take(i + 1));
                assert(after.drop_last() =~= before);
                assert(after.last() == names@[i as int]@);
                assert(after.len() == i + 1);
            }
            let name = names[i].as_str();
            if !GpuDetector::is_virtual_adapter(name) {
                let mut id = "gpu-".to_owned();
                push_decimal(&mut id, i as u64);
                let adapter = GpuAdapter {
                    id,
                    name: name.to_owned(),
                    gpu_type: GpuDetector::classify_gpu_name(name),
                    is_virtual: false,
                };
                let ghost seen = adapters@;
                adapters.push(adapter);
                assert(adapter_views(adapters@) =~= adapter_views(seen).push(
                    adapter_for(i as nat, names@[i as int]@),
                ));
            }
            i = i + 1;
        }
        assert(names@.take(names.len() as int) =~= names@);
        adapters
    }

    /// The host's adapters from the names it reports: blank names and
    /// virtual adapters are left out, the rest keep the number of their
    /// place among the names that are not blank.
    pub fn build_adapters(names: Vec<String>) -> (adapters: Vec<GpuAdapter>)
        ensures
            adapter_views(adapters@) == adapters_for(cleaned_names(texts(names@))),
    {
        let cleaned = GpuDetector::cleaned_non_empty_names(names);
        GpuDetector::adapters_for_cleaned(cleaned)
    }

    /// The adapter to prefer: the one of the highest rank, and of several
    /// such the last. `None` for an empty list.
    pub fn pick_primary_adapter(adapters: &[GpuAdapter]) -> (primary: Option<&GpuAdapter>)
        ensures
            match primary {
                Some(a) => adapters@.len() > 0 && *a == adapters@[primary_index(
                    adapter_views(adapters@),
                )],
                None => adapters@.len() == 0,
            },
    {
        if adapters.len() == 0 {
            return None;
        }
        let ghost views = adapter_views(adapters@);
        let mut best: usize = 0;
        let mut best_score: i32 = GpuDetector::gpu_priority(
            adapters[0].name.as_str(),
            adapters[0].gpu_type,
        );
        let mut i: usize = 1;
        assert(views.take(1).len() == 1);
        while i < adapters.len()
            invariant
                1 <= i <= adapters.len(),
                views == adapter_views(adapters@),
                best < i,
                best == primary_index(views.take(i as int)),
                best_score == adapter_priority(views[best as int]),
            decreases adapters.len() - i,
        {
            proof {
                let before = views.take(i as int);
                let after = views.take(i + 1);
                assert(after.drop_last() =~= before);
                assert(after.last() == views[i as int]);
                assert(after[best as int] == views[best as int]);
            }
            let score = GpuDetector::gpu_priority(adapters[i].name.as_str(), adapters[i].gpu_type);
            if score >= best_score {
                best = i;
                best_score = score;
            }
            i = i + 1;
        }
        assert(views.take(adapters.len() as int) =~= views);
        Some(&adapters[best])
    }

    /// What is known of the host, put together from the adapter names it
    /// reports and the encoders on offer: the preferred adapter gives the
    /// name, the id and the vendor, and hardware counts as detected where
    /// there is such an adapter.
    pub fn describe_host(names: Vec<String>, available_encoders: Vec<EncoderInfo>) -> (info: GpuInfo)
        ensures
            adapter_views(info.adapters@) == adapters_for(cleaned_names(texts(names@))),
            info.available_encoders == available_encoders,
            info.detected == (info.gpu_type != GpuType::NoGpu),
            info.adapters@.len() == 0 ==> info.gpu_type == GpuType::NoGpu && info.name@
                == Seq::<char>::empty() && info.primary_adapter_id is None,
            info.adapters@.len() > 0 ==> ({
                let primary = info.adapters@[primary_index(adapter_views(info.adapters@))];
                &&& info.gpu_type == primary.gpu_type
                &&& info.name@ == primary.name@
                &&& info.primary_adapter_id matches Some(id) && id@ == primary.id@
            }),
    {
        let adapters = GpuDetector::build_adapters(names);
        let (name, primary_adapter_id, gpu_type) = match GpuDetector::pick_primary_adapter(
            adapters.as_slice(),
        ) {
            Some(a) => (a.name.clone(), Some(a.id.clone()), a.gpu_type),
            None => (String::new(), None, GpuType::NoGpu),
        };
        let detected = match gpu_type {
            GpuType::NoGpu => false,
            _ => true,
        };
        GpuInfo { detected, gpu_type, name, primary_adapter_id, adapters, available_encoders }
    }
}

/// The adapter name in a row of the host's comma-separated listing of its
/// adapters: the third field. Blank rows, the heading row and rows of fewer
/// fields hold none.
pub open spec fn listed_name(line: Seq<char>) -> Option<Seq<char>> {
    let row = trimmed(line);
    if row.len() == 0 || has_prefix(row, "Node"@) {
        None
    } else {
        let fields = split_on(row, ',');
        if fields.len() >= 3 {
            Some(trimmed(fields[2]))
        } else {
            None
        }
    }
}

/// The adapter names in the rows of a comma-separated listing, in order.
pub open spec fn listed_names(lines: Seq<Seq<char>>) -> Seq<Seq<char>>
    decreases lines.len(),
{
    if lines.len() == 0 {
        Seq::empty()
    } else {
        let front = listed_names(lines.drop_last());
        match listed_name(lines.last()) {
            Some(name) => front.push(name),
            None => front,
        }
    }
}

/// Every line without its surrounding whitespace.
pub open spec fn trimmed_all(lines: Seq<Seq<char>>) -> Seq<Seq<char>> {
    Seq::new(lines.len(), |i: int| trimmed(lines[i]))
}

impl GpuDetector {
    /// The adapter name in a row of a comma-separated listing.
    pub fn name_from_row(line: &str) -> (name: Option<String>)
        ensures
            name.deep_view() == listed_name(line@),
    {
        let row = line.trim();
        if row.is_empty() {
            return None;
        }
        let chars = chars_of(row);
        if starts_with(&chars, "Node") {
            return None;
        }
        let fields = split(row, ',');
        if fields.len() >= 3 {
            assert(texts(fields@)[2] == fields@[2]@);
            Some(fields[2].as_str().trim().to_owned())
        } else {
            None
        }
    }

    /// The adapter names in a comma-separated listing with one adapter to a
    /// row.
    pub fn names_from_listing(printed: &str) -> (names: Vec<String>)
        ensures
            texts(names@) == listed_names(lines_of(printed@)),
    {
        let lines = split_lines(printed);
        let mut names: Vec<String> = Vec::new();
        let mut i: usize = 0;
        assert(texts(lines@).take(0) =~= Seq::<Seq<char>>::empty());
        assert(texts(names@) =~= Seq::<Seq<char>>::empty());
        while i < lines.len()
            invariant
                i <= lines.len(),
                texts(names@) == listed_names(texts(lines@).take(i as int)),
            decreases lines.len() - i,
        {
            proof {
                let before = texts(lines@).take(i as int);
                let after = texts(lines@).take(i + 1);
                assert(after.drop_last() =~= before);
                assert(after.last() == lines@[i as int]@);
            }
            if let Some(name) = GpuDetector::name_from_row(lines[i].as_str()) {
                proof {
                    lemma_texts_push(names@, name);
                }
                names.push(name);
            }
            i = i + 1;
        }
        assert(texts(lines@).take(lines.len() as int) =~= texts(lines@));
        names
    }

    /// The adapter names in a listing with one name to a line.
    pub fn names_from_lines(printed: &str) -> (names: Vec<String>)
        ensures
            texts(names@) == trimmed_all(lines_of(printed@)),
    {
        let lines = split_lines(printed);
        let mut names: Vec<String> = Vec::new();
        let mut i: usize = 0;
        assert(texts(names@) =~= trimmed_all(texts(lines@).take(0)));
        while i < lines.len()
            invariant
                i <= lines.len(),
                texts(names@) == trimmed_all(texts(lines@).take(i as int)),
            decreases lines.len() - i,
        {
            let name = lines[i].as_str().trim().to_owned();
            proof {
                lemma_texts_push(names@, name);
                assert(trimmed_all(texts(lines@).take(i + 1)) =~= trimmed_all(
                    texts(lines@).take(i as int),
                ).push(name@));
            }
            names.push(name);
            i = i + 1;
        }
        assert(texts(lines@).take(lines.len() as int) =~= texts(lines@));
        names
    }
}

/// The preferred adapter has the highest rank of all, and every adapter
/// after it ranks lower.
pub proof fn lemma_primary_is_best(adapters: Seq<AdapterView>, j: int)
    requires
        0 <= j < adapters.len(),
    ensures
        0 <= primary_index(adapters) < adapters.len(),
        adapter_priority(adapters[j]) <= adapter_priority(adapters[primary_index(adapters)]),
        j > primary_index(adapters) ==> adapter_priority(adapters[j]) < adapter_priority(
            adapters[primary_index(adapters)],
        ),
    decreases adapters.len(),
{
    if adapters.len() > 1 {
        let front = adapters.drop_last();
        lemma_primary_is_best(front, 0);
        let best = primary_index(front);
        assert(front[best] == adapters[best]);
        if j < adapters.len() - 1 {
            lemma_primary_is_best(front, j);
            assert(front[j] == adapters[j]);
        }
    }
}

} // verus!
