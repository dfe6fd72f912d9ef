use vstd::prelude::*;
use vstd::string::*;
use vstd::utf8::*;
use crate::text::{decimal_u64, is_digit, lemma_boundary_after_ascii, decimal_value, has_keyword_at, keyword_at, lemma_line_end, lemma_run_len_bound, line_end, line_rest_ok, lower, run_len, scan_line_end, scan_run, substring};

verus! {

/// A control command, one per line of the control socket.
#[derive(PartialEq, Eq, Debug)]
pub enum DownloaderCommand {
    AddUrl(String),
    Pause,
    Cancel,
    Resume,
    MoveDown(usize),
    MoveUp(usize),
    Delete(usize),
}

pub open spec fn kw_add() -> Seq<u8> {
    seq![97u8, 100u8, 100u8]
}

pub open spec fn kw_pause() -> Seq<u8> {
    seq![112u8, 97u8, 117u8, 115u8, 101u8]
}

pub open spec fn kw_cancel() -> Seq<u8> {
    seq![99u8, 97u8, 110u8, 99u8, 101u8, 108u8]
}

pub open spec fn kw_resume() -> Seq<u8> {
    seq![114u8, 101u8, 115u8, 117u8, 109u8, 101u8]
}

pub open spec fn kw_down() -> Seq<u8> {
    seq![100u8, 111u8, 119u8, 110u8]
}

pub open spec fn kw_up() -> Seq<u8> {
    seq![117u8, 112u8]
}

pub open spec fn kw_delete() -> Seq<u8> {
    seq![100u8, 101u8, 108u8, 101u8, 116u8, 101u8]
}

/// Where the argument of keyword `kw` starts: after the keyword and its blanks.
pub open spec fn arg_start(s: Seq<u8>, kw: Seq<u8>) -> int {
    (kw.len() + run_len(s, kw.len() as int, false)) as int
}

/// `s` starts with keyword `kw` followed by at least one blank.
pub open spec fn keyword_then_blank(s: Seq<u8>, kw: Seq<u8>) -> bool {
    has_keyword_at(s, 0, kw) && run_len(s, kw.len() as int, false) > 0
}

/// `s` reads `add`, blanks, and a URL up to the end of the line.
pub open spec fn add_form(s: Seq<u8>) -> bool {
    keyword_then_blank(s, kw_add()) && line_rest_ok(s, arg_start(s, kw_add()))
}

/// The URL bytes of an `add` line.
pub open spec fn add_arg(s: Seq<u8>) -> Seq<u8> {
    s.subrange(arg_start(s, kw_add()), line_end(s, arg_start(s, kw_add())))
}

/// The digits that follow keyword `kw` and its blanks.
pub open spec fn index_digits(s: Seq<u8>, kw: Seq<u8>) -> Seq<u8> {
    s.subrange(arg_start(s, kw), arg_start(s, kw) + run_len(s, arg_start(s, kw), true))
}

/// `s` reads keyword `kw`, blanks, and a decimal index that fits in `usize`.
pub open spec fn index_form(s: Seq<u8>, kw: Seq<u8>) -> bool {
    &&& keyword_then_blank(s, kw)
    &&& run_len(s, arg_start(s, kw), true) > 0
    &&& decimal_value(index_digits(s, kw)) <= usize::MAX
}

/// The command that the line with bytes `s` denotes, as `r`; `r` is an error
/// where the line denotes none. Text after a complete command is ignored.
pub open spec fn command_spec(s: Seq<u8>, r: Result<DownloaderCommand, ()>) -> bool {
    if add_form(s) {
        r matches Ok(DownloaderCommand::AddUrl(u)) && encode_utf8(u@) == add_arg(s)
    } else if has_keyword_at(s, 0, kw_pause()) {
        r == Ok::<DownloaderCommand, ()>(DownloaderCommand::Pause)
    } else if has_keyword_at(s, 0, kw_cancel()) {
        r == Ok::<DownloaderCommand, ()>(DownloaderCommand::Cancel)
    } else if has_keyword_at(s, 0, kw_resume()) {
        r == Ok::<DownloaderCommand, ()>(DownloaderCommand::Resume)
    } else if index_form(s, kw_down()) {
        r == Ok::<DownloaderCommand, ()>(DownloaderCommand::MoveDown(decimal_value(index_digits(s, kw_down())) as usize))
    } else if index_form(s, kw_up()) {
        r == Ok::<DownloaderCommand, ()>(DownloaderCommand::MoveUp(decimal_value(index_digits(s, kw_up())) as usize))
    } else if index_form(s, kw_delete()) {
        r == Ok::<DownloaderCommand, ()>(DownloaderCommand::Delete(decimal_value(index_digits(s, kw_delete())) as usize))
    } else {
        r is Err
    }
}

/// Reads a decimal number that fits in `usize` from the start of `input`;
/// gives the rest of the text and the number.
pub fn parse_int(input: &str) -> (r: Result<(&str, usize), ()>)
    ensures
        r is Ok <==> (run_len(input.spec_bytes(), 0, true) > 0
            && decimal_value(input.spec_bytes().subrange(0, run_len(input.spec_bytes(), 0, true) as int)) <= usize::MAX),
        r matches Ok((rest, v)) ==> v == decimal_value(input.spec_bytes().subrange(0, run_len(input.spec_bytes(), 0, true) as int))
            && rest.spec_bytes() == input.spec_bytes().subrange(run_len(input.spec_bytes(), 0, true) as int, input.spec_bytes().len() as int),
{
    broadcast use vstd::utf8::encode_utf8_valid_utf8;

    let b = input.as_bytes();
    let n = b.len();
    let nd = scan_run(b, 0, true);
    if nd == 0 {
        return Err(());
    }
    proof {
        lemma_run_len_bound(b@, 0, true);
    }
    match decimal_u64(b, 0, nd) {
        Some(v) => {
            if v > usize::MAX as u64 {
                return Err(());
            }
            proof {
                assert(is_digit(b@[nd - 1]));
                lemma_boundary_after_ascii(b@, nd as int);
            }
            let (_, rest) = input.split_at(nd);
            Ok((rest, v as usize))
        },
        None => Err(()),
    }
}

/// Reads keyword `kw`, blanks and a decimal index from the start of `b`.
fn index_arg(b: &[u8], kw: &[u8]) -> (r: Option<usize>)
    requires
        forall|i: int| 0 <= i < kw@.len() ==> lower(#[trigger] kw@[i]) == kw@[i],
        kw@.len() <= 6,
    ensures
        index_form(b@, kw@) <==> r is Some,
        r matches Some(v) ==> v == decimal_value(index_digits(b@, kw@)),
{
    let n = b.len();
    if !keyword_at(b, 0, kw) {
        return None;
    }
    let sp = scan_run(b, kw.len(), false);
    if sp == 0 {
        return None;
    }
    proof {
        lemma_run_len_bound(b@, kw@.len() as int, false);
    }
    let p = kw.len() + sp;
    let nd = scan_run(b, p, true);
    if nd == 0 {
        return None;
    }
    proof {
        lemma_run_len_bound(b@, p as int, true);
    }
    match decimal_u64(b, p, p + nd) {
        Some(v) => {
            if v > usize::MAX as u64 {
                None
            } else {
                Some(v as usize)
            }
        },
        None => None,
    }
}

/// Parses one control line: a keyword (any letter case), blanks, and an
/// argument where the keyword takes one. `add` takes the rest of the line.
pub fn parse_command(line: &str) -> (r: Result<DownloaderCommand, ()>)
    ensures
        command_spec(line.spec_bytes(), r),
{
    broadcast use vstd::array::axiom_spec_array_as_slice;

    let b = line.as_bytes();
    let n = b.len();
    let ghost s = b@;
    if keyword_at(b, 0, [97u8, 100, 100].as_slice()) {
        let sp = scan_run(b, 3, false);
        if sp > 0 {
            proof {
                lemma_run_len_bound(s, 3, false);
            }
            let p = 3 + sp;
            let e = scan_line_end(b, p);
            proof {
                lemma_line_end(s, p as int);
            }
            let ok = e >= b.len() || b[e] == 10 || (e + 1 < b.len() && b[e + 1] == 10);
            if ok {
                let url = substring(line, p, e);
                return Ok(DownloaderCommand::AddUrl(url));
            }
        }
    }
    if keyword_at(b, 0, [112u8, 97, 117, 115, 101].as_slice()) {
        return Ok(DownloaderCommand::Pause);
    }
    if keyword_at(b, 0, [99u8, 97, 110, 99, 101, 108].as_slice()) {
        return Ok(DownloaderCommand::Cancel);
    }
    if keyword_at(b, 0, [114u8, 101, 115, 117, 109, 101].as_slice()) {
        return Ok(DownloaderCommand::Resume);
    }
    if let Some(i) = index_arg(b, [100u8, 111, 119, 110].as_slice()) {
        return Ok(DownloaderCommand::MoveDown(i));
    }
    if let Some(i) = index_arg(b, [117u8, 112].as_slice()) {
        return Ok(DownloaderCommand::MoveUp(i));
    }
    if let Some(i) = index_arg(b, [100u8, 101, 108, 101, 116, 101].as_slice()) {
        return Ok(DownloaderCommand::Delete(i));
    }
    Err(())
}

impl core::str::FromStr for DownloaderCommand {
    type Err = ();

    fn from_str(s: &str) -> Result<DownloaderCommand, ()> {
        parse_command(s)
    }
}

} // verus!
