//! The configuration file's contents (`$XDG_CONFIG_HOME/tapedeck/config.toml`):
//! recording defaults and the hardware the doctor detected. Reading and
//! writing TOML is the caller's.

use vstd::prelude::*;

use crate::probe::HardwareCapabilities;
use crate::scan::strings_view;
use crate::text::{lit, push_str};

verus! {

/// Recording defaults, applied where a script sets nothing.
pub struct Defaults {
    pub output: Option<String>,
    /// `vhs`, `native` or `auto`.
    pub engine: Option<String>,
    pub fps: Option<u32>,
    pub encoder: Option<String>,
}

/// What the hardware probe found, as written back by the doctor.
pub struct Detected {
    pub encoders: Vec<String>,
    pub vaapi: bool,
    pub dri: bool,
}

/// The `[system]` table.
pub struct System {
    pub detected: Option<Detected>,
}

/// The whole configuration.
pub struct Config {
    pub defaults: Defaults,
    pub system: System,
}

impl Default for Defaults {
    fn default() -> (d: Self)
        ensures
            d.output is None,
            d.engine is None,
            d.fps is None,
            d.encoder is None,
    {
        Defaults { output: None, engine: None, fps: None, encoder: None }
    }
}

impl Default for System {
    fn default() -> (s: Self)
        ensures
            s.detected is None,
    {
        System { detected: None }
    }
}

impl Default for Detected {
    fn default() -> (d: Self)
        ensures
            d.encoders@.len() == 0,
            !d.vaapi,
            !d.dri,
    {
        Detected { encoders: Vec::new(), vaapi: false, dri: false }
    }
}

impl Default for Config {
    fn default() -> (c: Self)
        ensures
            c.defaults.output is None,
            c.defaults.engine is None,
            c.defaults.fps is None,
            c.defaults.encoder is None,
            c.system.detected is None,
    {
        Config { defaults: Defaults::default(), system: System::default() }
    }
}

/// The `[system.detected]` table for what the probe found.
pub fn detected_from(caps: &HardwareCapabilities) -> (d: Detected)
    ensures
        strings_view(d.encoders@) == strings_view(caps.encoders@),
        d.vaapi == caps.vaapi,
        d.dri == caps.dri,
{
    let mut encoders: Vec<String> = Vec::new();
    let mut i: usize = 0;
    while i < caps.encoders.len()
        invariant
            i <= caps.encoders.len(),
            strings_view(encoders@) == strings_view(caps.encoders@.take(i as int)),
        decreases caps.encoders.len() - i,
    {
        let ghost before = strings_view(encoders@);
        encoders.push(lit(caps.encoders[i].as_str()));
        assert(strings_view(encoders@) =~= before.push(caps.encoders@[i as int]@));
        assert(strings_view(caps.encoders@.take(i + 1)) =~= strings_view(caps.encoders@.take(i as int)).push(
            caps.encoders@[i as int]@,
        ));
        i += 1;
    }
    assert(caps.encoders@.take(caps.encoders.len() as int) =~= caps.encoders@);
    Detected { encoders, vaapi: caps.vaapi, dri: caps.dri }
}

/// The note shown when there is no configuration file.
pub fn missing_config_notice(path: &str) -> (r: String)
    ensures
        r@ == "提示：無設定檔 "@ + path@ + "，使用預設值"@,
{
    let mut s = lit("提示：無設定檔 ");
    push_str(&mut s, path);
    push_str(&mut s, "，使用預設值");
    s
}

} // verus!
