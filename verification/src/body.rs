//! The player state from the fields of a `getState` body.
//!
//! The body is a JSON object; the JSON library turns it into key and value
//! pairs, and this decides what they mean. Unknown keys are ignored. Text
//! fields must be strings or null; flags must be booleans or null; a key
//! given twice is an error. Integer and display fields are loosely typed and
//! never fail the body.

use vstd::prelude::*;
use crate::state::{Loose, PlayerState, loose_int, loose_string, loose_text, loose_u64, loose_u8};
use crate::text::{chars_of, opt_text, same_text};

verus! {

broadcast use vstd::string::group_string_axioms;

/// One key of the body: its value, and for a number or a string the value
/// read as a float and truncated toward zero, when it reads as one.
pub struct Field {
    pub key: String,
    pub value: Loose,
    pub float_trunc: Option<u64>,
}

/// Why a body was refused.
#[derive(Debug, Clone, Copy, PartialEq, Eq, Structural)]
pub enum BodyError {
    /// A known key is given twice.
    Duplicate,
    /// A text field is not a string, or a flag is not a boolean.
    Type,
}

/// Index of the first field named `k` at or after `i`.
pub open spec fn first_from(fs: Seq<Field>, k: Seq<char>, i: int) -> Option<int>
    decreases fs.len() - i,
{
    if i < 0 || i >= fs.len() {
        None
    } else if fs[i].key@ == k {
        Some(i)
    } else {
        first_from(fs, k, i + 1)
    }
}

pub open spec fn first(fs: Seq<Field>, k: Seq<char>) -> Option<int> {
    first_from(fs, k, 0)
}

/// `k` is given more than once.
pub open spec fn repeated(fs: Seq<Field>, k: Seq<char>) -> bool {
    exists|i: int, j: int| 0 <= i < j < fs.len() && fs[i].key@ == k && fs[j].key@ == k
}

/// A text field: absent or null is `None`, a string is kept as it stands,
/// anything else is an error.
pub open spec fn text_field(fs: Seq<Field>, k: Seq<char>) -> Result<Option<Seq<char>>, BodyError> {
    if repeated(fs, k) {
        Err(BodyError::Duplicate)
    } else {
        match first(fs, k) {
            None => Ok(None),
            Some(i) => match fs[i].value {
                Loose::Null => Ok(None),
                Loose::Str(s) => Ok(Some(s@)),
                _ => Err(BodyError::Type),
            },
        }
    }
}

/// A flag: absent or null is `None`, a boolean is kept, anything else is
/// an error.
pub open spec fn flag_field(fs: Seq<Field>, k: Seq<char>) -> Result<Option<bool>, BodyError> {
    if repeated(fs, k) {
        Err(BodyError::Duplicate)
    } else {
        match first(fs, k) {
            None => Ok(None),
            Some(i) => match fs[i].value {
                Loose::Null => Ok(None),
                Loose::Bool(b) => Ok(Some(b)),
                _ => Err(BodyError::Type),
            },
        }
    }
}

/// A loose integer field, at most `max`.
pub open spec fn int_field(fs: Seq<Field>, k: Seq<char>, max: nat) -> Result<Option<nat>, BodyError> {
    if repeated(fs, k) {
        Err(BodyError::Duplicate)
    } else {
        match first(fs, k) {
            None => Ok(None),
            Some(i) => Ok(loose_int(fs[i].value, fs[i].float_trunc, max)),
        }
    }
}

/// A loose display field.
pub open spec fn shown_field(fs: Seq<Field>, k: Seq<char>) -> Result<Option<Seq<char>>, BodyError> {
    if repeated(fs, k) {
        Err(BodyError::Duplicate)
    } else {
        match first(fs, k) {
            None => Ok(None),
            Some(i) => Ok(loose_text(fs[i].value)),
        }
    }
}

/// Where the field named `k` is, and whether it is the only one.
fn find(fs: &Vec<Field>, k: &str) -> (r: (Option<usize>, bool))
    ensures
        r.0 == match first(fs@, k@) {
            Some(i) => Some(i as usize),
            None => None::<usize>,
        },
        r.1 == !repeated(fs@, k@),
        r.0 matches Some(i) ==> i < fs@.len() && fs@[i as int].key@ == k@ && first(fs@, k@) == Some(
            i as int,
        ),
        r.0 is None ==> first(fs@, k@) is None,
{
    let mut i: usize = 0;
    let mut found: Option<usize> = None;
    let mut count: usize = 0;
    let kk = k.to_string();
    while i < fs.len()
        invariant
            i <= fs@.len(),
            kk@ == k@,
            count <= i,
            count == 0 <==> (forall|j: int| 0 <= j < i ==> fs@[j].key@ != k@),
            count >= 2 <==> (exists|a: int, b: int| 0 <= a < b < i && fs@[a].key@ == k@ && fs@[b].key@ == k@),
            match found {
                Some(f) => f < i && fs@[f as int].key@ == k@ && first(fs@, k@) == Some(f as int),
                None => count == 0,
            },
            count > 0 ==> found is Some,
            first(fs@, k@) == first_from(fs@, k@, 0),
            forall|j: int| 0 <= j < i && count == 0 ==> first_from(fs@, k@, 0) == first_from(fs@, k@, j + 1) || fs@[j].key@ == k@,
            count == 0 ==> first_from(fs@, k@, 0) == first_from(fs@, k@, i as int),
        decreases fs@.len() - i,
    {
        if same_text(&fs[i].key, &kk) {
            if count == 0 {
                found = Some(i);
            } else {
                let ghost f = found->0;
                assert(fs@[f as int].key@ == k@);
            }
            if count < 2 {
                count = count + 1;
            }
        }
        i = i + 1;
    }
    proof {
        if count == 0 {
            assert(first_from(fs@, k@, fs@.len() as int) is None);
        }
        lemma_first_from(fs@, k@, 0);
    }
    (found, count < 2)
}

proof fn lemma_first_from(fs: Seq<Field>, k: Seq<char>, i: int)
    requires
        0 <= i,
    ensures
        first_from(fs, k, i) matches Some(j) ==> i <= j < fs.len() && fs[j].key@ == k,
    decreases fs.len() - i,
{
    if i < fs.len() && fs[i].key@ != k {
        lemma_first_from(fs, k, i + 1);
    }
}

fn text_of(fs: &Vec<Field>, k: &str) -> (r: Result<Option<String>, BodyError>)
    ensures
        match r {
            Ok(v) => text_field(fs@, k@) == Ok::<Option<Seq<char>>, BodyError>(opt_text(v)),
            Err(e) => text_field(fs@, k@) == Err::<Option<Seq<char>>, BodyError>(e),
        },
{
    let (at, unique) = find(fs, k);
    if !unique {
        return Err(BodyError::Duplicate);
    }
    match at {
        None => Ok(None),
        Some(i) => match &fs[i].value {
            Loose::Null => Ok(None),
            Loose::Str(s) => Ok(Some(s.clone())),
            _ => Err(BodyError::Type),
        },
    }
}

fn flag_of(fs: &Vec<Field>, k: &str) -> (r: Result<Option<bool>, BodyError>)
    ensures
        r == flag_field(fs@, k@),
{
    let (at, unique) = find(fs, k);
    if !unique {
        return Err(BodyError::Duplicate);
    }
    match at {
        None => Ok(None),
        Some(i) => match &fs[i].value {
            Loose::Null => Ok(None),
            Loose::Bool(b) => Ok(Some(*b)),
            _ => Err(BodyError::Type),
        },
    }
}

fn u64_of(fs: &Vec<Field>, k: &str) -> (r: Result<Option<u64>, BodyError>)
    ensures
        match r {
            Ok(v) => int_field(fs@, k@, u64::MAX as nat) == Ok::<Option<nat>, BodyError>(match v {
                Some(n) => Some(n as nat),
                None => None::<nat>,
            }),
            Err(e) => int_field(fs@, k@, u64::MAX as nat) == Err::<Option<nat>, BodyError>(e),
        },
{
    let (at, unique) = find(fs, k);
    if !unique {
        return Err(BodyError::Duplicate);
    }
    match at {
        None => Ok(None),
        Some(i) => Ok(loose_u64(&fs[i].value, fs[i].float_trunc)),
    }
}

fn u8_of(fs: &Vec<Field>, k: &str) -> (r: Result<Option<u8>, BodyError>)
    ensures
        match r {
            Ok(v) => int_field(fs@, k@, 255) == Ok::<Option<nat>, BodyError>(match v {
                Some(n) => Some(n as nat),
                None => None::<nat>,
            }),
            Err(e) => int_field(fs@, k@, 255) == Err::<Option<nat>, BodyError>(e),
        },
{
    let (at, unique) = find(fs, k);
    if !unique {
        return Err(BodyError::Duplicate);
    }
    match at {
        None => Ok(None),
        Some(i) => Ok(loose_u8(&fs[i].value, fs[i].float_trunc)),
    }
}

fn shown_of(fs: &Vec<Field>, k: &str) -> (r: Result<Option<String>, BodyError>)
    ensures
        match r {
            Ok(v) => shown_field(fs@, k@) == Ok::<Option<Seq<char>>, BodyError>(opt_text(v)),
            Err(e) => shown_field(fs@, k@) == Err::<Option<Seq<char>>, BodyError>(e),
        },
{
    let (at, unique) = find(fs, k);
    if !unique {
        return Err(BodyError::Duplicate);
    }
    match at {
        None => Ok(None),
        Some(i) => Ok(loose_string(&fs[i].value)),
    }
}

pub open spec fn ok_text(r: Result<Option<Seq<char>>, BodyError>) -> Option<Seq<char>> {
    match r {
        Ok(v) => v,
        Err(_) => None,
    }
}

pub open spec fn ok_int(r: Result<Option<nat>, BodyError>) -> Option<nat> {
    match r {
        Ok(v) => v,
        Err(_) => None,
    }
}

pub open spec fn ok_flag(r: Result<Option<bool>, BodyError>) -> Option<bool> {
    match r {
        Ok(v) => v,
        Err(_) => None,
    }
}

pub open spec fn opt_nat<T>(o: Option<T>, f: spec_fn(T) -> nat) -> Option<nat> {
    match o {
        Some(x) => Some(f(x)),
        None => None,
    }
}

pub open spec fn err_of<T>(r: Result<T, BodyError>) -> Option<BodyError> {
    match r {
        Ok(_) => None,
        Err(e) => Some(e),
    }
}

/// The first field, in the state's order, that fails, and how.
pub open spec fn body_error(fs: Seq<Field>) -> Option<BodyError> {
    if err_of(text_field(fs, "status"@)) is Some {
        err_of(text_field(fs, "status"@))
    } else if err_of(text_field(fs, "title"@)) is Some {
        err_of(text_field(fs, "title"@))
    } else if err_of(text_field(fs, "artist"@)) is Some {
        err_of(text_field(fs, "artist"@))
    } else if err_of(text_field(fs, "album"@)) is Some {
        err_of(text_field(fs, "album"@))
    } else if err_of(text_field(fs, "albumart"@)) is Some {
        err_of(text_field(fs, "albumart"@))
    } else if err_of(int_field(fs, "seek"@, u64::MAX as nat)) is Some {
        err_of(int_field(fs, "seek"@, u64::MAX as nat))
    } else if err_of(int_field(fs, "duration"@, u64::MAX as nat)) is Some {
        err_of(int_field(fs, "duration"@, u64::MAX as nat))
    } else if err_of(shown_field(fs, "samplerate"@)) is Some {
        err_of(shown_field(fs, "samplerate"@))
    } else if err_of(shown_field(fs, "bitdepth"@)) is Some {
        err_of(shown_field(fs, "bitdepth"@))
    } else if err_of(shown_field(fs, "trackType"@)) is Some {
        err_of(shown_field(fs, "trackType"@))
    } else if err_of(shown_field(fs, "codec"@)) is Some {
        err_of(shown_field(fs, "codec"@))
    } else if err_of(shown_field(fs, "bitrate"@)) is Some {
        err_of(shown_field(fs, "bitrate"@))
    } else if err_of(int_field(fs, "volume"@, 255)) is Some {
        err_of(int_field(fs, "volume"@, 255))
    } else if err_of(flag_field(fs, "mute"@)) is Some {
        err_of(flag_field(fs, "mute"@))
    } else if err_of(flag_field(fs, "random"@)) is Some {
        err_of(flag_field(fs, "random"@))
    } else if err_of(flag_field(fs, "repeat"@)) is Some {
        err_of(flag_field(fs, "repeat"@))
    } else if err_of(flag_field(fs, "repeatSingle"@)) is Some {
        err_of(flag_field(fs, "repeatSingle"@))
    } else if err_of(shown_field(fs, "service"@)) is Some {
        err_of(shown_field(fs, "service"@))
    } else {
        None
    }
}

/// The body is accepted: no field of the state fails.
pub open spec fn body_ok(fs: Seq<Field>) -> bool {
    &&& text_field(fs, "status"@) is Ok
    &&& text_field(fs, "title"@) is Ok
    &&& text_field(fs, "artist"@) is Ok
    &&& text_field(fs, "album"@) is Ok
    &&& text_field(fs, "albumart"@) is Ok
    &&& int_field(fs, "seek"@, u64::MAX as nat) is Ok
    &&& int_field(fs, "duration"@, u64::MAX as nat) is Ok
    &&& shown_field(fs, "samplerate"@) is Ok
    &&& shown_field(fs, "bitdepth"@) is Ok
    &&& shown_field(fs, "trackType"@) is Ok
    &&& shown_field(fs, "codec"@) is Ok
    &&& shown_field(fs, "bitrate"@) is Ok
    &&& int_field(fs, "volume"@, 255) is Ok
    &&& flag_field(fs, "mute"@) is Ok
    &&& flag_field(fs, "random"@) is Ok
    &&& flag_field(fs, "repeat"@) is Ok
    &&& flag_field(fs, "repeatSingle"@) is Ok
    &&& shown_field(fs, "service"@) is Ok
}

/// A loosely typed field never refuses the body, whatever its value: only
/// giving its key twice does.
pub proof fn loose_fields_never_fail(fs: Seq<Field>, k: Seq<char>, max: nat)
    requires
        !repeated(fs, k),
    ensures
        int_field(fs, k, max) is Ok,
        shown_field(fs, k) is Ok,
{
}

impl PlayerState {
    /// The state a body describes, field by field under the API's names.
    pub fn from_fields(fs: &Vec<Field>) -> (r: Result<PlayerState, BodyError>)
        ensures
            r is Ok <==> body_ok(fs@),
            r matches Err(e) ==> body_error(fs@) == Some(e),
            r matches Ok(s) ==> {
                &&& opt_text(s.status) == ok_text(text_field(fs@, "status"@))
                &&& opt_text(s.title) == ok_text(text_field(fs@, "title"@))
                &&& opt_text(s.artist) == ok_text(text_field(fs@, "artist"@))
                &&& opt_text(s.album) == ok_text(text_field(fs@, "album"@))
                &&& opt_text(s.album_art) == ok_text(text_field(fs@, "albumart"@))
                &&& opt_nat(s.seek, |n: u64| n as nat) == ok_int(int_field(fs@, "seek"@, u64::MAX as nat))
                &&& opt_nat(s.duration, |n: u64| n as nat) == ok_int(int_field(fs@, "duration"@, u64::MAX as nat))
                &&& opt_text(s.samplerate) == ok_text(shown_field(fs@, "samplerate"@))
                &&& opt_text(s.bitdepth) == ok_text(shown_field(fs@, "bitdepth"@))
                &&& opt_text(s.track_type) == ok_text(shown_field(fs@, "trackType"@))
                &&& opt_text(s.codec) == ok_text(shown_field(fs@, "codec"@))
                &&& opt_text(s.bitrate) == ok_text(shown_field(fs@, "bitrate"@))
                &&& opt_nat(s.volume, |n: u8| n as nat) == ok_int(int_field(fs@, "volume"@, 255))
                &&& s.mute == ok_flag(flag_field(fs@, "mute"@))
                &&& s.random == ok_flag(flag_field(fs@, "random"@))
                &&& s.repeat == ok_flag(flag_field(fs@, "repeat"@))
                &&& s.repeat_single == ok_flag(flag_field(fs@, "repeatSingle"@))
                &&& opt_text(s.service) == ok_text(shown_field(fs@, "service"@))
            },
    {
        let status = match text_of(fs, "status") {
            Ok(v) => v,
            Err(e) => {
                return Err(e);
            },
        };
        let title = match text_of(fs, "title") {
            Ok(v) => v,
            Err(e) => {
                return Err(e);
            },
        };
        let artist = match text_of(fs, "artist") {
            Ok(v) => v,
            Err(e) => {
                return Err(e);
            },
        };
        let album = match text_of(fs, "album") {
            Ok(v) => v,
            Err(e) => {
                return Err(e);
            },
        };
        let album_art = match text_of(fs, "albumart") {
            Ok(v) => v,
            Err(e) => {
                return Err(e);
            },
        };
        let seek = match u64_of(fs, "seek") {
            Ok(v) => v,
            Err(e) => {
                return Err(e);
            },
        };
        let duration = match u64_of(fs, "duration") {
            Ok(v) => v,
            Err(e) => {
                return Err(e);
            },
        };
        let samplerate = match shown_of(fs, "samplerate") {
            Ok(v) => v,
            Err(e) => {
                return Err(e);
            },
        };
        let bitdepth = match shown_of(fs, "bitdepth") {
            Ok(v) => v,
            Err(e) => {
                return Err(e);
            },
        };
        let track_type = match shown_of(fs, "trackType") {
            Ok(v) => v,
            Err(e) => {
                return Err(e);
            },
        };
        let codec = match shown_of(fs, "codec") {
            Ok(v) => v,
            Err(e) => {
                return Err(e);
            },
        };
        let bitrate = match shown_of(fs, "bitrate") {
            Ok(v) => v,
            Err(e) => {
                return Err(e);
            },
        };
        let volume = match u8_of(fs, "volume") {
            Ok(v) => v,
            Err(e) => {
                return Err(e);
            },
        };
        let mute = match flag_of(fs, "mute") {
            Ok(v) => v,
            Err(e) => {
                return Err(e);
            },
        };
        let random = match flag_of(fs, "random") {
            Ok(v) => v,
            Err(e) => {
                return Err(e);
            },
        };
        let repeat = match flag_of(fs, "repeat") {
            Ok(v) => v,
            Err(e) => {
                return Err(e);
            },
        };
        let repeat_single = match flag_of(fs, "repeatSingle") {
            Ok(v) => v,
            Err(e) => {
                return Err(e);
            },
        };
        let service = match shown_of(fs, "service") {
            Ok(v) => v,
            Err(e) => {
                return Err(e);
            },
        };
        Ok(PlayerState {
            status,
            title,
            artist,
            album,
            album_art,
            seek,
            duration,
            samplerate,
            bitdepth,
            track_type,
            codec,
            bitrate,
            volume,
            mute,
            random,
            repeat,
            repeat_single,
            service,
        })
    }
}

} // verus!
