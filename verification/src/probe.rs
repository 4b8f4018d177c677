//! Hardware probe: which video encoders ffmpeg offers, whether a VA-API
//! device exists, and the encoder fallback chain
//! AV1 hardware → VP9 hardware → VP9 software.

use vstd::prelude::*;

use crate::scan::{contains_name, has_name, pick_names, pick_table_names, strings_view, Pick};
use crate::text::{chars, contains_lit, contains_seq, lit};

verus! {

/// What the probe found.
#[derive(Debug, Clone, PartialEq)]
pub struct HardwareCapabilities {
    /// Encoders `ffmpeg -encoders` lists as video encoders.
    pub encoders: Vec<String>,
    /// VA-API usable: `/dev/dri` exists and some encoder is a vaapi one.
    pub vaapi: bool,
    /// `/dev/dri` exists.
    pub dri: bool,
}

impl Default for HardwareCapabilities {
    fn default() -> (r: Self)
        ensures
            r.encoders@.len() == 0,
            !r.vaapi,
            !r.dri,
    {
        HardwareCapabilities { encoders: Vec::new(), vaapi: false, dri: false }
    }
}

pub open spec fn any_vaapi(encs: Seq<Seq<char>>) -> bool {
    exists|i: int| 0 <= i < encs.len() && contains_seq(#[trigger] encs[i], "vaapi"@)
}

/// The fallback chain, best first.
pub open spec fn chain_pick(encs: Seq<Seq<char>>) -> Option<Seq<char>> {
    if has_name(encs, "av1_vaapi"@) {
        Some("av1_vaapi"@)
    } else if has_name(encs, "vp9_vaapi"@) {
        Some("vp9_vaapi"@)
    } else if has_name(encs, "libvpx-vp9"@) {
        Some("libvpx-vp9"@)
    } else {
        None
    }
}

/// The requested encoder when available, otherwise the first available one
/// of the chain, otherwise none.
pub open spec fn fallback_spec(encs: Seq<Seq<char>>, req: Option<Seq<char>>) -> Option<Seq<char>> {
    match req {
        Some(r) => if has_name(encs, r) {
            Some(r)
        } else {
            chain_pick(encs)
        },
        None => chain_pick(encs),
    }
}

impl HardwareCapabilities {
    pub open spec fn encoder_names(&self) -> Seq<Seq<char>> {
        strings_view(self.encoders@)
    }

    /// Capabilities from the output of `ffmpeg -encoders` (None when ffmpeg
    /// could not run or failed) and whether `/dev/dri` exists.
    pub fn probe_system(ffmpeg_encoders_output: Option<&str>, dri: bool) -> (c: Self)
        ensures
            c.encoder_names() == match ffmpeg_encoders_output {
                Some(o) => pick_names(o@, Pick::VideoNoLegend),
                None => Seq::empty(),
            },
            c.dri == dri,
            c.vaapi == (dri && any_vaapi(c.encoder_names())),
    {
        let encoders = match ffmpeg_encoders_output {
            Some(o) => parse_encoders(o),
            None => {
                let v: Vec<String> = Vec::new();
                assert(strings_view(v@) =~= Seq::<Seq<char>>::empty());
                v
            },
        };
        let ghost names = strings_view(encoders@);
        let mut found = false;
        let mut i: usize = 0;
        while i < encoders.len() && !found
            invariant
                i <= encoders.len(),
                names == strings_view(encoders@),
                found ==> any_vaapi(names),
                !found ==> forall|k: int| 0 <= k < i ==> !contains_seq(#[trigger] names[k], "vaapi"@),
            decreases encoders.len() - i,
        {
            let e = chars(&encoders[i]);
            assert(names[i as int] == encoders@[i as int]@);
            if contains_lit(&e, "vaapi") {
                found = true;
            }
            i += 1;
        }
        let vaapi = dri && found;
        HardwareCapabilities { encoders, vaapi, dri }
    }

    /// Whether the named encoder is available.
    pub fn has_encoder(&self, name: &str) -> (r: bool)
        ensures
            r == has_name(self.encoder_names(), name@),
    {
        contains_name(&self.encoders, name)
    }
}

/// Video encoders listed by `ffmpeg -encoders`: the name column of lines
/// whose flags start with `V`, without the legend line.
pub fn parse_encoders(output: &str) -> (r: Vec<String>)
    ensures
        strings_view(r@) == pick_names(output@, Pick::VideoNoLegend),
{
    pick_table_names(output, Pick::VideoNoLegend)
}

/// Encoder choice: the requested one if available, else the first available
/// of `av1_vaapi`, `vp9_vaapi`, `libvpx-vp9`, else none.
pub fn encoder_fallback(caps: &HardwareCapabilities, requested: Option<&str>) -> (r: Option<
    String,
>)
    ensures
        match r {
            Some(s) => fallback_spec(caps.encoder_names(), req_view(requested)) == Some(s@),
            None => fallback_spec(caps.encoder_names(), req_view(requested)) is None,
        },
{
    if let Some(r) = requested {
        if caps.has_encoder(r) {
            return Some(lit(r));
        }
    }
    if caps.has_encoder("av1_vaapi") {
        Some(lit("av1_vaapi"))
    } else if caps.has_encoder("vp9_vaapi") {
        Some(lit("vp9_vaapi"))
    } else if caps.has_encoder("libvpx-vp9") {
        Some(lit("libvpx-vp9"))
    } else {
        None
    }
}

pub open spec fn req_view(r: Option<&str>) -> Option<Seq<char>> {
    match r {
        Some(s) => Some(s@),
        None => None,
    }
}

/// Law: whatever the fallback picks is an encoder the machine has; it picks
/// nothing only when neither the request nor any encoder of the chain is
/// available.
pub proof fn law_fallback_is_available(encs: Seq<Seq<char>>, req: Option<Seq<char>>)
    ensures
        fallback_spec(encs, req) matches Some(e) ==> has_name(encs, e),
        fallback_spec(encs, req) is None <==> (!(req matches Some(r) && has_name(encs, r))
            && !has_name(encs, "av1_vaapi"@) && !has_name(encs, "vp9_vaapi"@) && !has_name(
            encs,
            "libvpx-vp9"@,
        )),
{
}

} // verus!
