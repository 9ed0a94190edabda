//! The info text of a game directory: `key: value` lines that set the
//! descriptive fields of a game record.
use vstd::prelude::*;
use crate::text::{index_of, lower_of, parse_u32_spec, split_on, trim_of};

verus! {

/// The descriptive fields of a game, as the info text sets them.
pub struct MetaView {
    pub title: Seq<char>,
    pub developer: Option<Seq<char>>,
    pub publisher: Option<Seq<char>>,
    pub release_date: Option<Seq<char>>,
    pub description: Option<Seq<char>>,
    pub igdb_id: Option<u32>,
}

/// The view of an optional string.
pub open spec fn opt_view(o: Option<String>) -> Option<Seq<char>> {
    match o {
        Some(s) => Some(s@),
        None => None,
    }
}

/// A key of the info text: one of its aliases.
pub open spec fn key_is_title(k: Seq<char>) -> bool {
    k == "title"@ || k == "name"@ || k == "game"@ || k == "game name"@
}

pub open spec fn key_is_developer(k: Seq<char>) -> bool {
    k == "developer"@ || k == "dev"@
}

pub open spec fn key_is_publisher(k: Seq<char>) -> bool {
    k == "publisher"@ || k == "pub"@
}

pub open spec fn key_is_release(k: Seq<char>) -> bool {
    k == "release"@ || k == "release date"@ || k == "date"@
}

pub open spec fn key_is_description(k: Seq<char>) -> bool {
    k == "description"@ || k == "desc"@ || k == "about"@
}

pub open spec fn key_is_igdb(k: Seq<char>) -> bool {
    k == "igdb"@ || k == "igdb_id"@ || k == "igdb id"@
}

/// Sets the field that `key` names; unknown keys change nothing.
pub open spec fn apply_value(m: MetaView, key: Seq<char>, value: Seq<char>) -> MetaView {
    if key_is_title(key) {
        MetaView { title: value, ..m }
    } else if key_is_developer(key) {
        MetaView { developer: Some(value), ..m }
    } else if key_is_publisher(key) {
        MetaView { publisher: Some(value), ..m }
    } else if key_is_release(key) {
        MetaView { release_date: Some(value), ..m }
    } else if key_is_description(key) {
        MetaView { description: Some(value), ..m }
    } else if key_is_igdb(key) {
        MetaView { igdb_id: parse_u32_spec(value), ..m }
    } else {
        m
    }
}

/// The state of a pass over the info text: the fields so far, the key of a
/// multi-line value under way, and the lines gathered for it.
pub struct MetaState {
    pub meta: MetaView,
    pub key: Option<Seq<char>>,
    pub buf: Seq<char>,
}

/// Saves a pending multi-line value, if any.
pub open spec fn flush_pending(st: MetaState) -> MetaView {
    match st.key {
        Some(k) => if st.buf.len() > 0 {
            apply_value(st.meta, k, st.buf)
        } else {
            st.meta
        },
        None => st.meta,
    }
}

/// One line of the info text.
pub open spec fn meta_step(st: MetaState, raw: Seq<char>) -> MetaState {
    let line = trim_of(raw);
    if line.len() == 0 || line[0] == '#' {
        st
    } else {
        let colon = index_of(line, ':', 0);
        if colon < line.len() {
            let meta = flush_pending(st);
            let buf = if st.key is Some && st.buf.len() > 0 {
                Seq::empty()
            } else {
                st.buf
            };
            let key = lower_of(trim_of(line.take(colon)));
            let value = trim_of(line.skip(colon + 1));
            if value.len() == 0 {
                MetaState { meta, key: Some(key), buf }
            } else {
                MetaState { meta: apply_value(meta, key, value), key: None, buf }
            }
        } else if st.key is Some {
            if st.buf.len() > 0 {
                MetaState { buf: st.buf.push('\n') + line, ..st }
            } else {
                MetaState { buf: st.buf + line, ..st }
            }
        } else {
            st
        }
    }
}

/// The lines of the info text, in order.
pub open spec fn meta_lines(st: MetaState, lines: Seq<Seq<char>>) -> MetaState
    decreases lines.len(),
{
    if lines.len() == 0 {
        st
    } else {
        meta_step(meta_lines(st, lines.drop_last()), lines.last())
    }
}

/// The fields after reading an info text: `key: value` lines, with blank
/// lines and `#` comments skipped, and a key with an empty value starting a
/// value that continues over the following lines without a key.
pub open spec fn parse_meta(m: MetaView, content: Seq<char>) -> MetaView {
    flush_pending(
        meta_lines(MetaState { meta: m, key: None, buf: Seq::empty() }, split_on(content, '\n')),
    )
}

/// Whether a string equals a literal.
pub(crate) fn is_key(key: &String, lit: &str) -> (r: bool)
    ensures
        r == (key@ == lit@),
{
    *key == lit.to_owned()
}

} // verus!
