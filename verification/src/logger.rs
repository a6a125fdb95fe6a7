//! The lines written to the log file: every message ends in a Windows line
//! break.
use vstd::prelude::*;

use crate::text::{concat_text, ends_with, has_suffix, lemma_replace_char_concat, owned, replace, replace_all};

verus! {

/// A carriage return followed by a line feed.
pub open spec fn crlf() -> Seq<char> {
    seq!['\r', '\n']
}

/// The line written for `msg`: kept as it is when it ends in `\r\n`; every
/// `\n` turned into `\r\n` when it ends in a bare `\n`; completed with `\n`
/// when it ends in `\r`; and given `\r\n` otherwise.
pub open spec fn log_line_text(msg: Seq<char>) -> Seq<char> {
    if has_suffix(msg, crlf()) {
        msg
    } else if has_suffix(msg, seq!['\n']) {
        replace_all(msg, seq!['\n'], crlf())
    } else if has_suffix(msg, seq!['\r']) {
        msg + seq!['\n']
    } else {
        msg + crlf()
    }
}

/// The line that the log file receives for `msg`.
pub fn log_line(msg: &str) -> (line: String)
    ensures
        line@ == log_line_text(msg@),
{
    proof {
        reveal_strlit("\r\n");
        reveal_strlit("\n");
        reveal_strlit("\r");
        assert("\r\n"@ =~= crlf());
        assert("\n"@ =~= seq!['\n']);
        assert("\r"@ =~= seq!['\r']);
    }
    if ends_with(msg, "\r\n") {
        owned(msg)
    } else if ends_with(msg, "\n") {
        replace(msg, "\n", "\r\n")
    } else if ends_with(msg, "\r") {
        concat_text(msg, "\n")
    } else {
        concat_text(msg, "\r\n")
    }
}

/// Law: every line written to the log ends in `\r\n`.
pub proof fn lemma_log_line_ends_with_crlf(msg: Seq<char>)
    ensures
        has_suffix(log_line_text(msg), crlf()),
{
    let line = log_line_text(msg);
    if has_suffix(msg, crlf()) {
    } else if has_suffix(msg, seq!['\n']) {
        let body = msg.drop_last();
        assert(msg =~= body + seq!['\n']) by {
            assert(msg.subrange(msg.len() - 1, msg.len() as int)[0] == msg.last());
        }
        lemma_replace_char_concat(body, seq!['\n'], '\n', crlf());
        let one = seq!['\n'];
        assert(one.subrange(0, 1) =~= one);
        assert(one.skip(1) =~= Seq::<char>::empty());
        assert(replace_all(one, one, crlf()) == crlf() + replace_all(one.skip(1), one, crlf()));
        assert(replace_all(one, one, crlf()) =~= crlf());
        assert(line == replace_all(body, one, crlf()) + crlf());
        let r = replace_all(body, one, crlf());
        assert((r + crlf()).subrange((r + crlf()).len() - 2, (r + crlf()).len() as int) =~= crlf());
    } else if has_suffix(msg, seq!['\r']) {
        assert(msg.subrange(msg.len() - 1, msg.len() as int)[0] == msg.last());
        assert((msg + seq!['\n']).subrange(msg.len() - 1, (msg.len() + 1) as int) =~= crlf());
    } else {
        assert((msg + crlf()).subrange(msg.len() as int, (msg.len() + 2) as int) =~= crlf());
    }
}

/// Law: a line made for the log is written as it is when logged again.
pub proof fn lemma_log_line_idempotent(msg: Seq<char>)
    ensures
        log_line_text(log_line_text(msg)) == log_line_text(msg),
{
    lemma_log_line_ends_with_crlf(msg);
}

} // verus!
