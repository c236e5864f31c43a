//! The loading splash shown at startup: where its page lives and how the
//! preview renderer is asked to show it.
use vstd::prelude::*;
use vstd::utf8::encode_utf8;
use crate::preview::{open_preview_with_args, preview_command, PreviewCommand};
use crate::text::{texts, to_chars};

verus! {

/// Characters a file URL carries as they are.
pub open spec fn is_kept(c: char) -> bool {
    ||| '0' <= c <= '9'
    ||| 'a' <= c <= 'z'
    ||| 'A' <= c <= 'Z'
    ||| c == '-'
    ||| c == '_'
    ||| c == '.'
    ||| c == '~'
    ||| c == '/'
    ||| c == ':'
}

/// The upper-case hexadecimal digit of a value below sixteen.
pub open spec fn hex_upper(d: int) -> char {
    if d == 0 {
        '0'
    } else if d == 1 {
        '1'
    } else if d == 2 {
        '2'
    } else if d == 3 {
        '3'
    } else if d == 4 {
        '4'
    } else if d == 5 {
        '5'
    } else if d == 6 {
        '6'
    } else if d == 7 {
        '7'
    } else if d == 8 {
        '8'
    } else if d == 9 {
        '9'
    } else if d == 10 {
        'A'
    } else if d == 11 {
        'B'
    } else if d == 12 {
        'C'
    } else if d == 13 {
        'D'
    } else if d == 14 {
        'E'
    } else {
        'F'
    }
}

/// Each byte as `%` and two upper-case hexadecimal digits.
pub open spec fn percent_bytes(bytes: Seq<u8>) -> Seq<char>
    decreases bytes.len(),
{
    if bytes.len() == 0 {
        Seq::<char>::empty()
    } else {
        percent_bytes(bytes.drop_last()) + seq![
            '%',
            hex_upper(bytes.last() as int / 16),
            hex_upper(bytes.last() as int % 16),
        ]
    }
}

/// A character as a file URL carries it: itself, or its UTF-8 bytes in
/// percent form.
pub open spec fn encode_char(c: char) -> Seq<char> {
    if is_kept(c) {
        seq![c]
    } else {
        percent_bytes(encode_utf8(seq![c]))
    }
}

/// Every character of a path as a file URL carries it.
pub open spec fn encode_path(s: Seq<char>) -> Seq<char>
    decreases s.len(),
{
    if s.len() == 0 {
        Seq::<char>::empty()
    } else {
        encode_path(s.drop_last()) + encode_char(s.last())
    }
}

/// The path with `/` in place of every `\`.
pub open spec fn with_forward_slashes(s: Seq<char>) -> Seq<char> {
    Seq::new(
        s.len(),
        |i: int|
            if s[i] == '\\' {
                '/'
            } else {
                s[i]
            },
    )
}

/// The path without the marker of a Windows extended-length path.
pub open spec fn without_long_path_marker(s: Seq<char>) -> Seq<char> {
    if s.len() >= 4 && s[0] == '/' && s[1] == '/' && s[2] == '?' && s[3] == '/' {
        s.skip(4)
    } else {
        s
    }
}

/// The `file:` URL of an absolute path. A path that starts with a drive
/// letter gets a third slash in front.
pub open spec fn file_url(path: Seq<char>) -> Seq<char> {
    let encoded = encode_path(without_long_path_marker(with_forward_slashes(path)));
    if encoded.len() >= 2 && encoded[1] == ':' {
        "file:///"@ + encoded
    } else {
        "file://"@ + encoded
    }
}

/// The upper-case hexadecimal digit of a value below sixteen.
fn hex_digit(d: u8) -> (c: char)
    requires
        d < 16,
    ensures
        c == hex_upper(d as int),
{
    if d == 0 {
        '0'
    } else if d == 1 {
        '1'
    } else if d == 2 {
        '2'
    } else if d == 3 {
        '3'
    } else if d == 4 {
        '4'
    } else if d == 5 {
        '5'
    } else if d == 6 {
        '6'
    } else if d == 7 {
        '7'
    } else if d == 8 {
        '8'
    } else if d == 9 {
        '9'
    } else if d == 10 {
        'A'
    } else if d == 11 {
        'B'
    } else if d == 12 {
        'C'
    } else if d == 13 {
        'D'
    } else if d == 14 {
        'E'
    } else {
        'F'
    }
}

/// Whether a file URL carries `c` as it is.
fn keeps(c: char) -> (r: bool)
    ensures
        r == is_kept(c),
{
    ('0' <= c && c <= '9') || ('a' <= c && c <= 'z') || ('A' <= c && c <= 'Z') || c == '-' || c
        == '_' || c == '.' || c == '~' || c == '/' || c == ':'
}

/// Appends to `out` the form in which a file URL carries `c`.
fn push_encoded(out: &mut Vec<char>, c: char)
    ensures
        final(out)@ == old(out)@ + encode_char(c),
{
    if keeps(c) {
        out.push(c);
        assert(out@ =~= old(out)@ + seq![c]);
    } else {
        let mut one = String::new();
        one.push(c);
        assert(one@ =~= seq![c]);
        let bytes = one.as_str().as_bytes();
        let n = bytes.len();
        let mut i: usize = 0;
        assert(bytes@.take(0) =~= Seq::<u8>::empty());
        assert(out@ =~= old(out)@ + percent_bytes(bytes@.take(0)));
        while i < n
            invariant
                i <= n == bytes@.len(),
                out@ == old(out)@ + percent_bytes(bytes@.take(i as int)),
            decreases n - i,
        {
            let b = bytes[i];
            out.push('%');
            out.push(hex_digit(b / 16));
            out.push(hex_digit(b % 16));
            proof {
                let before = bytes@.take(i as int);
                let after = bytes@.take(i + 1);
                assert(after.drop_last() =~= before);
                assert(after.last() == b);
                assert(out@ =~= old(out)@ + percent_bytes(after));
            }
            i = i + 1;
        }
        assert(bytes@.take(n as int) =~= bytes@);
    }
}

/// The `file:` URL of a path that has been made absolute and free of links.
pub fn path_to_file_url(canonical_path: &str) -> (r: String)
    ensures
        r@ == file_url(canonical_path@),
{
    let raw = to_chars(canonical_path);
    let n = raw.len();
    let mut path: Vec<char> = Vec::new();
    let mut i: usize = 0;
    while i < n
        invariant
            i <= n == raw.len(),
            path@ == with_forward_slashes(raw@).take(i as int),
        decreases n - i,
    {
        let c = raw[i];
        path.push(if c == '\\' {
            '/'
        } else {
            c
        });
        i = i + 1;
        assert(path@ =~= with_forward_slashes(raw@).take(i as int));
    }
    assert(path@ =~= with_forward_slashes(raw@));
    let start: usize = if n >= 4 && path[0] == '/' && path[1] == '/' && path[2] == '?' && path[3]
        == '/' {
        4
    } else {
        0
    };
    let ghost source = without_long_path_marker(path@);
    assert(source =~= path@.skip(start as int));
    let mut encoded: Vec<char> = Vec::new();
    let mut k: usize = start;
    assert(source.take(0) =~= Seq::<char>::empty());
    while k < n
        invariant
            start <= k <= n == path.len(),
            source == path@.skip(start as int),
            encoded@ == encode_path(source.take(k - start)),
        decreases n - k,
    {
        push_encoded(&mut encoded, path[k]);
        proof {
            let before = source.take(k - start);
            let after = source.take(k + 1 - start);
            assert(after.drop_last() =~= before);
            assert(after.last() == path@[k as int]);
        }
        k = k + 1;
    }
    assert(source.take(n - start) =~= source);
    let mut r = if encoded.len() >= 2 && encoded[1] == ':' {
        "file:///".to_owned()
    } else {
        "file://".to_owned()
    };
    let ghost head = r@;
    let m = encoded.len();
    let mut j: usize = 0;
    while j < m
        invariant
            j <= m == encoded.len(),
            r@ == head + encoded@.take(j as int),
        decreases m - j,
    {
        r.push(encoded[j]);
        j = j + 1;
        assert(r@ =~= head + encoded@.take(j as int));
    }
    assert(encoded@.take(m as int) =~= encoded@);
    r
}

/// Where the splash page is kept, as path components below the cache root.
pub open spec fn loading_page() -> Seq<Seq<char>> {
    seq!["loading"@, "twitchdesk-loading.html"@]
}

/// Path components, below the cache root, of the splash page.
pub fn loading_html_path() -> (r: Vec<String>)
    ensures
        texts(r@) == loading_page(),
{
    let mut r: Vec<String> = Vec::new();
    r.push("loading".to_owned());
    r.push("twitchdesk-loading.html".to_owned());
    assert(texts(r@) =~= loading_page());
    r
}

/// How long the splash stays open, in milliseconds, as the renderer reads it.
pub open spec fn splash_duration() -> Seq<char> {
    "3000"@
}

/// The arguments that make the preview renderer show the splash page and
/// close by itself.
pub open spec fn splash_arguments(page: Seq<char>) -> Seq<Seq<char>> {
    seq![file_url(page), "--auto-close-ms"@, splash_duration()]
}

/// Decides how to show the loading splash, and shrugs off whatever stands
/// in the way: with no page on disk, or no renderer to be found, there is
/// simply no splash.
///
/// `page` is the absolute path of the splash page once it has been written,
/// `installed` and `dev_build` say whether a renderer exists beside the
/// application and in the development build directory.
pub fn show_startup_loading_splash_best_effort(
    page: Option<&str>,
    os: &str,
    installed: bool,
    dev_build: bool,
) -> (r: Option<PreviewCommand>)
    ensures
        match r {
            Some(c) => {
                &&& page matches Some(p)
                &&& (installed || dev_build)
                &&& c@ == preview_command(splash_arguments(p@), os@, installed)
            },
            None => page is None || !(installed || dev_build),
        },
{
    match page {
        Some(p) => {
            let url = path_to_file_url(p);
            let mut extra: Vec<String> = Vec::new();
            extra.push("--auto-close-ms".to_owned());
            extra.push("3000".to_owned());
            match open_preview_with_args(url.as_str(), &extra, os, installed, dev_build) {
                Ok(c) => {
                    proof {
                        assert(c@.arguments =~= splash_arguments(p@));
                    }
                    Some(c)
                },
                Err(_) => None,
            }
        },
        None => None,
    }
}

} // verus!
