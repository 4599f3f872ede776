use vstd::prelude::*;
use vstd::utf8::{decode_utf8, valid_utf8};

use crate::error::RrdError;
use crate::flags::{flags_mask, ExtraFlags};
use crate::marshal::{
    counted_slots, first_nul_at, foreign_bytes, lossy_string, lossy_text,
    make_counted_array, make_null_terminated_array, optional_bytes, path_to_foreign,
    string_to_foreign,
    text_has_nul, time_in_range, to_foreign_time, EpochTime, ForeignStringArray,
};

verus! {

/// Whether no string of `xs` holds a null byte.
pub open spec fn all_clear(xs: Seq<&str>) -> bool {
    forall|i: int| 0 <= i < xs.len() ==> !text_has_nul(#[trigger] xs[i])
}

/// Whether an optional path can be converted.
pub open spec fn optional_clear(p: Option<&str>) -> bool {
    match p {
        Some(t) => !text_has_nul(t),
        None => true,
    }
}

/// The foreign bytes of an optional path.
pub open spec fn optional_foreign(p: Option<&str>) -> Option<Seq<u8>> {
    match p {
        Some(t) => Some(foreign_bytes(t@)),
        None => None,
    }
}

/// Whether `e` names the first string of `xs` that holds a null byte.
pub open spec fn names_first_nul(xs: Seq<&str>, e: RrdError) -> bool {
    exists|k: int| first_nul_at(xs, k) && e == (RrdError::InvalidString { index: k as usize })
}

/// Converts an optional path.
fn optional_path_to_foreign(p: Option<&str>) -> (r: Result<Option<Vec<u8>>, RrdError>)
    ensures
        r is Ok <==> optional_clear(p),
        r matches Ok(b) ==> optional_bytes(b) == optional_foreign(p),
        r matches Err(e) ==> e == RrdError::InvalidPath,
{
    match p {
        Some(t) => match path_to_foreign(t) {
            Ok(b) => Ok(Some(b)),
            Err(e) => Err(e),
        },
        None => Ok(None),
    }
}

/// Everything the engine's creation entry point takes, in its own encoding.
pub struct CreateCall {
    /// The archive to create.
    pub path: Vec<u8>,
    /// The base step, in whole seconds.
    pub step: u64,
    /// The time of the last update, in seconds since the epoch.
    pub last_update: i64,
    /// 1 to refuse overwriting an existing file, else 0.
    pub no_overwrite: i32,
    /// Archives to copy structure from, null-terminated.
    pub sources: ForeignStringArray,
    /// An optional template archive.
    pub template: Option<Vec<u8>>,
    /// The definition directives, counted.
    pub args: ForeignStringArray,
}

/// Marshals the arguments of an archive creation.
///
/// The first problem found, in this order, is reported: an archive path with
/// a null byte (`InvalidPath`), a source path with a null byte
/// (`InvalidString` naming the first, as the source array is built), a
/// template path with a null byte (`InvalidPath`), a directive with a null
/// byte (`InvalidString` naming the first), a last update time out of range
/// (`TimeOutOfRange`).
pub fn prepare_create(
    path: &str,
    step_secs: u64,
    last_update: EpochTime,
    no_overwrite: bool,
    sources: &[&str],
    template: Option<&str>,
    args: &[&str],
) -> (r: Result<CreateCall, RrdError>)
    requires
        last_update.wf(),
    ensures
        r is Ok <==> !text_has_nul(path) && all_clear(sources@) && optional_clear(template)
            && all_clear(args@) && time_in_range(last_update),
        r matches Ok(c) ==> {
            &&& c.path@ == foreign_bytes(path@)
            &&& c.step == step_secs
            &&& c.last_update == last_update.secs
            &&& c.no_overwrite == (if no_overwrite { 1i32 } else { 0i32 })
            &&& c.sources.wf() && c.sources@ == counted_slots(sources@).push(None)
            &&& optional_bytes(c.template) == optional_foreign(template)
            &&& c.args.wf() && c.args.spec_count() == args@.len() && c.args@ == counted_slots(args@)
        },
        text_has_nul(path) ==> r == Err::<CreateCall, RrdError>(RrdError::InvalidPath),
        !text_has_nul(path) && !all_clear(sources@) ==> (r matches Err(e) && names_first_nul(
            sources@,
            e,
        )),
        !text_has_nul(path) && all_clear(sources@) && !optional_clear(template) ==> r == Err::<
            CreateCall,
            RrdError,
        >(RrdError::InvalidPath),
        !text_has_nul(path) && all_clear(sources@) && optional_clear(template) && !all_clear(args@)
            ==> (r matches Err(e) && names_first_nul(args@, e)),
        !text_has_nul(path) && all_clear(sources@) && optional_clear(template) && all_clear(args@)
            && !time_in_range(last_update) ==> r == Err::<CreateCall, RrdError>(
            RrdError::TimeOutOfRange,
        ),
{
    let path = path_to_foreign(path)?;
    let sources = make_null_terminated_array(sources)?;
    let template = optional_path_to_foreign(template)?;
    let args_array = make_counted_array(args)?;
    let last_update = to_foreign_time(last_update)?;
    Ok(
        CreateCall {
            path,
            step: step_secs,
            last_update,
            no_overwrite: if no_overwrite { 1 } else { 0 },
            sources,
            template,
            args: args_array,
        },
    )
}


/// Everything the engine's update entry point takes, in its own encoding.
pub struct UpdateCall {
    /// The archive to update.
    pub path: Vec<u8>,
    /// An optional template naming the data sources the directives fill.
    pub template: Option<Vec<u8>>,
    /// The behaviour switches as one mask.
    pub flags: i32,
    /// The update directives, counted.
    pub args: ForeignStringArray,
}

/// Marshals the arguments of an archive update.
///
/// The first problem found, in this order, is reported: a path with a null
/// byte (`InvalidPath`, for the archive or the template), then a directive
/// with a null byte (`InvalidString` naming the first).
pub fn prepare_update(path: &str, template: Option<&str>, extra_flags: ExtraFlags, args: &[&str]) -> (r:
    Result<UpdateCall, RrdError>)
    ensures
        r is Ok <==> !text_has_nul(path) && optional_clear(template) && all_clear(args@),
        r matches Ok(c) ==> {
            &&& c.path@ == foreign_bytes(path@)
            &&& optional_bytes(c.template) == optional_foreign(template)
            &&& c.flags == flags_mask(extra_flags)
            &&& c.args.wf() && c.args.spec_count() == args@.len() && c.args@ == counted_slots(args@)
        },
        !(!text_has_nul(path) && optional_clear(template)) ==> r == Err::<UpdateCall, RrdError>(
            RrdError::InvalidPath,
        ),
        !text_has_nul(path) && optional_clear(template) && !all_clear(args@) ==> (r matches Err(e)
            && names_first_nul(args@, e)),
{
    let path = path_to_foreign(path)?;
    let template = optional_path_to_foreign(template)?;
    let args_array = make_counted_array(args)?;
    Ok(
        UpdateCall {
            path,
            template,
            flags: extra_flags.bits(),
            args: args_array,
        },
    )
}

/// Everything the engine's fetch entry point takes, in its own encoding. The
/// times and the step are hints the engine may adjust.
pub struct FetchCall {
    /// The archive to read.
    pub path: Vec<u8>,
    /// The name of the consolidation function.
    pub cf: Vec<u8>,
    /// The requested start, in seconds since the epoch.
    pub start: i64,
    /// The requested end, in seconds since the epoch.
    pub end: i64,
    /// The requested resolution, in whole seconds.
    pub step: u64,
}

/// Marshals the arguments of a fetch.
///
/// The first problem found, in this order, is reported: a path with a null
/// byte (`InvalidPath`), a consolidation function name with a null byte
/// (`InvalidString` at index 0), a start or end out of range
/// (`TimeOutOfRange`).
pub fn prepare_fetch(path: &str, cf: &str, start: EpochTime, end: EpochTime, step_secs: u64) -> (r:
    Result<FetchCall, RrdError>)
    requires
        start.wf(),
        end.wf(),
    ensures
        r is Ok <==> !text_has_nul(path) && !text_has_nul(cf) && time_in_range(start)
            && time_in_range(end),
        r matches Ok(c) ==> {
            &&& c.path@ == foreign_bytes(path@)
            &&& c.cf@ == foreign_bytes(cf@)
            &&& c.start == start.secs && c.end == end.secs && c.step == step_secs
        },
        text_has_nul(path) ==> r == Err::<FetchCall, RrdError>(RrdError::InvalidPath),
        !text_has_nul(path) && text_has_nul(cf) ==> r == Err::<FetchCall, RrdError>(
            RrdError::InvalidString { index: 0 },
        ),
        !text_has_nul(path) && !text_has_nul(cf) && !(time_in_range(start) && time_in_range(end))
            ==> r == Err::<FetchCall, RrdError>(RrdError::TimeOutOfRange),
{
    let path = path_to_foreign(path)?;
    let cf = string_to_foreign(cf)?;
    let start = to_foreign_time(start)?;
    let end = to_foreign_time(end)?;
    Ok(FetchCall { path, cf, start, end, step: step_secs })
}

/// Whether an engine status code reports success: zero does, anything else
/// is a failure whose diagnostic must be read at once.
pub fn call_succeeded(status: i32) -> (r: bool)
    ensures
        r == (status == 0),
{
    status == 0
}

/// Turns the engine's diagnostic text, read up to its terminating null
/// byte, into an `EngineError`. Text that is valid UTF-8 is kept as it is;
/// other bytes are read with replacement characters, so every failure
/// reaches the caller as an error.
pub fn engine_error(diagnostic: &[u8]) -> (r: RrdError)
    ensures
        r matches RrdError::EngineError(t) && t@ == lossy_text(diagnostic@),
        valid_utf8(diagnostic@) ==> (r matches RrdError::EngineError(t) && t@ == decode_utf8(
            diagnostic@,
        )),
{
    RrdError::EngineError(lossy_string(diagnostic))
}

} // verus!
