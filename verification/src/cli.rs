//! The command line: subcommands and their arguments, as values. Parsing
//! `argv` is the caller's.

use vstd::prelude::*;

use crate::dispatcher::RunOptions;
use crate::fspath::{file_stem, path_file_stem};
use crate::optimize::OptimizeOptions;
use crate::paths::{cache_dir_spec, resolve_output_path, resolve_output_spec, XdgEnv};
use crate::script::opt_view;
use crate::text::{copy_string, lit, push_str};

verus! {

/// `tapedeck run`.
pub struct RunArgs {
    pub script_file: String,
    pub output: Option<String>,
    pub fps: Option<u32>,
    /// Size cap in MB.
    pub max_size: Option<u32>,
    pub gif: bool,
    pub webp: bool,
    /// Validate the script and show the selected backend without recording.
    pub dry_run: bool,
}

/// `tapedeck link`.
pub struct LinkArgs {
    pub media_file: String,
    /// md, zola or html.
    pub format: String,
}

/// `tapedeck optimize`.
pub struct OptimizeArgs {
    pub input: String,
    pub output: Option<String>,
    pub format: Option<String>,
    /// 1-100 (webp).
    pub quality: u8,
    /// palettegen sampling rate.
    pub fps: u32,
    pub dry_run: bool,
}

/// `tapedeck clean`.
pub struct CleanArgs {
    pub dry_run: bool,
}

/// `tapedeck filmstrip`.
pub struct FilmstripArgs {
    pub input: String,
    /// The `.roll` script the moments come from.
    pub roll: Option<String>,
    /// At most this many moments.
    pub count: usize,
    pub output: Option<String>,
    pub dry_run: bool,
}

/// Batch re-recording.
pub struct RerollArgs {
    /// Directory searched for scripts (the working directory when absent).
    pub path: Option<String>,
    /// Only scripts whose recording is missing or older than the script.
    pub stale_only: bool,
    /// Remove orphaned assets afterwards.
    pub clean: bool,
}

pub enum Commands {
    /// Run a recording script.
    Run(RunArgs),
    /// Print the embedding syntax of a media file.
    Link(LinkArgs),
    /// Optimise a media file.
    Optimize(OptimizeArgs),
    /// Build a horizontal step image.
    Filmstrip(FilmstripArgs),
    /// Remove orphaned assets.
    Clean(CleanArgs),
    /// Check external tools and hardware.
    Doctor,
    /// Serve MCP over stdio.
    Mcp,
}

pub struct Cli {
    pub command: Commands,
}

fn copy_opt(o: &Option<String>) -> (r: Option<String>)
    ensures
        opt_view(r) == opt_view(*o),
{
    match o {
        Some(s) => Some(copy_string(s)),
        None => None,
    }
}

impl RunArgs {
    /// The run options these arguments ask for.
    pub fn options(&self) -> (o: RunOptions)
        ensures
            opt_view(o.output) == opt_view(self.output),
            o.max_size == self.max_size,
            o.gif == self.gif,
            o.webp == self.webp,
            o.dry_run == self.dry_run,
    {
        RunOptions {
            output: copy_opt(&self.output),
            max_size: self.max_size,
            gif: self.gif,
            webp: self.webp,
            dry_run: self.dry_run,
        }
    }
}

impl OptimizeArgs {
    pub fn options(&self) -> (o: OptimizeOptions)
        ensures
            o.input@ == self.input@,
            opt_view(o.output) == opt_view(self.output),
            opt_view(o.format) == opt_view(self.format),
            o.quality == self.quality,
            o.fps == self.fps,
            o.dry_run == self.dry_run,
    {
        OptimizeOptions {
            input: copy_string(&self.input),
            output: copy_opt(&self.output),
            format: copy_opt(&self.format),
            quality: self.quality,
            fps: self.fps,
            dry_run: self.dry_run,
        }
    }
}

/// The filmstrip's file: `--output`, else `<input stem>-filmstrip.png`
/// (`recording` without a stem) in the cache directory.
pub open spec fn filmstrip_output_spec(env: XdgEnv, input: Seq<char>, output: Option<Seq<char>>) -> Seq<
    char,
> {
    match output {
        Some(o) => o,
        None => {
            let stem = match file_stem(input) {
                Some(s) => s,
                None => "recording"@,
            };
            resolve_output_spec(cache_dir_spec(env), stem + "-filmstrip.png"@, None)
        },
    }
}

impl FilmstripArgs {
    pub fn output_path(&self, env: &XdgEnv) -> (r: String)
        ensures
            r@ == filmstrip_output_spec(*env, self.input@, opt_view(self.output)),
    {
        match &self.output {
            Some(o) => copy_string(o),
            None => {
                let stem = match path_file_stem(self.input.as_str()) {
                    Some(s) => s,
                    None => lit("recording"),
                };
                let mut name = copy_string(&stem);
                push_str(&mut name, "-filmstrip.png");
                resolve_output_path(env, name.as_str(), None)
            },
        }
    }
}

} // verus!
