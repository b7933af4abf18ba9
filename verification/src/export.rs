//! Naming of saved screenshots: an existing file is never overwritten, a
//! collision gets a numeric suffix instead.
use vstd::prelude::*;
use crate::codec::{jpeg_encode, jpeg_encoding, png_encode, png_encoding};
use crate::config::{clamped_quality, Config, OutputFormat};
use crate::raster::Raster;
use crate::text::{decimal, push_decimal};

verus! {

/// How many names are tried before giving up.
pub const MAX_NAME_ATTEMPTS: u32 = 1000;

/// File name of attempt `n >= 1`: `{stem}_{n}.{ext}`.
pub open spec fn numbered_name(stem: Seq<char>, n: nat, ext: Seq<char>) -> Seq<char> {
    stem + "_"@ + decimal(n) + "."@ + ext
}

pub fn numbered_file_name(stem: &str, n: u32, ext: &str) -> (name: String)
    ensures
        name@ == numbered_name(stem@, n as nat, ext@),
{
    let mut name = String::from_str(stem);
    name.append("_");
    push_decimal(&mut name, n as u128);
    name.append(".");
    name.append(ext);
    name
}

/// What happened when a candidate file was created exclusively.
#[derive(Debug, Clone, Copy, PartialEq, Eq, Structural)]
pub enum CreateOutcome {
    Created,
    AlreadyExists,
    /// Any other failure; the caller reports it for this candidate.
    Failed,
}

/// What to do after attempt `n`.
#[derive(Debug, Clone, Copy, PartialEq, Eq, Structural)]
pub enum ClaimStep {
    /// The candidate is ours.
    Claimed,
    /// Try attempt `n`.
    Next(u32),
    /// Report the failure of this candidate.
    Fail,
    /// Every name up to the limit is taken.
    Exhausted,
}

/// Attempt 0 is the plain name; attempt `n >= 1` is `numbered_name(.., n, ..)`.
/// A taken name moves on to the next attempt until the limit is reached.
pub fn claim_step(n: u32, outcome: CreateOutcome) -> (step: ClaimStep)
    requires
        n < MAX_NAME_ATTEMPTS,
    ensures
        step == (match outcome {
            CreateOutcome::Created => ClaimStep::Claimed,
            CreateOutcome::Failed => ClaimStep::Fail,
            CreateOutcome::AlreadyExists => if n + 1 < MAX_NAME_ATTEMPTS {
                ClaimStep::Next((n + 1) as u32)
            } else {
                ClaimStep::Exhausted
            },
        }),
{
    match outcome {
        CreateOutcome::Created => ClaimStep::Claimed,
        CreateOutcome::Failed => ClaimStep::Fail,
        CreateOutcome::AlreadyExists => if n + 1 < MAX_NAME_ATTEMPTS {
            ClaimStep::Next(n + 1)
        } else {
            ClaimStep::Exhausted
        },
    }
}

pub const NO_FREE_NAME: &'static str = "Could not find a free filename";

/// What a screenshot's file holds in the configured format: the PNG
/// encoding, or the JPEG encoding at the clamped quality.
pub open spec fn saved_encoding(image: Raster, format: OutputFormat, jpeg_quality: u8) -> Option<Seq<u8>> {
    match format {
        OutputFormat::Png => png_encoding(image.width, image.height, image.pixels@),
        OutputFormat::Jpeg => jpeg_encoding(image.width, image.height, image.pixels@, clamped_quality(jpeg_quality)),
    }
}

/// Encodes a screenshot for saving in the configured format. A failure is
/// reported as `PNG save failed: ..` or `JPEG save failed: ..`.
pub fn encode_for_save(image: &Raster, config: &Config) -> (r: Result<Vec<u8>, String>)
    requires
        image.wf(),
    ensures
        r matches Ok(v) ==> saved_encoding(*image, config.output_format, config.jpeg_quality) == Some(v@),
        r is Err ==> saved_encoding(*image, config.output_format, config.jpeg_quality) is None,
        r matches Err(msg) ==> match config.output_format {
            OutputFormat::Png => msg@.subrange(0, 17) == "PNG save failed: "@,
            OutputFormat::Jpeg => msg@.subrange(0, 18) == "JPEG save failed: "@,
        },
{
    match config.output_format {
        OutputFormat::Png => match png_encode(image.width, image.height, &image.pixels) {
            Ok(v) => Ok(v),
            Err(e) => {
                let mut msg = String::from_str("PNG save failed: ");
                msg.append(e.as_str());
                proof {
                    reveal_strlit("PNG save failed: ");
                    assert(msg@.subrange(0, 17) =~= "PNG save failed: "@);
                }
                Err(msg)
            },
        },
        OutputFormat::Jpeg => {
            let quality = config.jpeg_quality_clamped();
            match jpeg_encode(image.width, image.height, &image.pixels, quality) {
                Ok(v) => Ok(v),
                Err(e) => {
                    let mut msg = String::from_str("JPEG save failed: ");
                    msg.append(e.as_str());
                    proof {
                        reveal_strlit("JPEG save failed: ");
                        assert(msg@.subrange(0, 18) =~= "JPEG save failed: "@);
                    }
                    Err(msg)
                },
            }
        },
    }
}

/// The first collision of `name.ext` is written as `name_1.ext`.
pub proof fn lemma_first_collision_suffix(stem: Seq<char>, ext: Seq<char>)
    ensures
        numbered_name(stem, 1, ext) == stem + "_1."@ + ext,
{
    reveal_strlit("_");
    reveal_strlit(".");
    reveal_strlit("_1.");
    assert(decimal(1) == seq!['1']);
    assert(stem + "_"@ + decimal(1) + "."@ + ext =~= stem + "_1."@ + ext);
}

} // verus!
