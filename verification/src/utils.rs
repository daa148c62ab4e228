//! Username rules, clock, file extensions and picking a seed channel.

use vstd::prelude::*;
use rand::Rng;
use crate::text::{chars_of, split_lines, split_lines_spec, string_views, str_equals};
use vstd::utf8::is_ascii_chars;

verus! {

/// A character allowed anywhere in a username.
pub open spec fn is_username_char(c: char) -> bool {
    ||| 'A' <= c <= 'Z'
    ||| 'a' <= c <= 'z'
    ||| '0' <= c <= '9'
    ||| c == '.'
    ||| c == '_'
}

/// A character allowed at the start and at the end of a username.
pub open spec fn is_username_edge_char(c: char) -> bool {
    is_username_char(c) && c != '.'
}

/// Whether `s` holds two dots in a row.
pub open spec fn has_double_dot(s: Seq<char>) -> bool {
    exists|i: int| 0 <= i < s.len() - 1 && s[i] == '.' && #[trigger] s[i + 1] == '.'
}

/// The relaxed username pattern: a non-empty ASCII text of letters,
/// digits, dots and underscores that neither starts nor ends with a dot
/// and holds no two dots in a row.
pub open spec fn valid_username_pattern(s: Seq<char>) -> bool {
    &&& s.len() > 0
    &&& is_ascii_chars(s)
    &&& forall|i: int| 0 <= i < s.len() ==> is_username_char(#[trigger] s[i])
    &&& is_username_edge_char(s[0])
    &&& is_username_edge_char(s.last())
    &&& !has_double_dot(s)
}

fn username_char(c: char) -> (r: bool)
    ensures
        r == is_username_char(c),
{
    ('A' <= c && c <= 'Z') || ('a' <= c && c <= 'z') || ('0' <= c && c <= '9') || c == '.' || c
        == '_'
}

fn username_edge_char(c: char) -> (r: bool)
    ensures
        r == is_username_edge_char(c),
{
    username_char(c) && c != '.'
}

/// A general username validity check, relaxed enough for several networks.
/// Length is not checked here.
pub fn is_valid_username_pattern(s: &str) -> (r: bool)
    ensures
        r == valid_username_pattern(s@),
{
    let v = chars_of(s);
    let n = v.len();
    if n == 0 || !s.is_ascii() {
        return false;
    }
    let mut all_chars = true;
    let mut double_dot = false;
    for i in 0..n
        invariant
            n == v@.len(),
            v@ == s@,
            all_chars == (forall|j: int| 0 <= j < i ==> is_username_char(#[trigger] v@[j])),
            double_dot == (exists|j: int|
                0 <= j < i - 1 && v@[j] == '.' && #[trigger] v@[j + 1] == '.'),
    {
        all_chars = all_chars && username_char(v[i]);
        if i > 0 && v[i - 1] == '.' && v[i] == '.' {
            double_dot = true;
        }
        assert(double_dot == (exists|j: int|
            0 <= j < i + 1 - 1 && v@[j] == '.' && #[trigger] v@[j + 1] == '.')) by {
            if i > 0 && v@[i - 1] == '.' && v@[i as int] == '.' {
                assert(v@[(i - 1) + 1] == '.');
            }
        }
    }
    let first_ok = username_edge_char(v[0]);
    let last_ok = username_edge_char(v[n - 1]);
    all_chars && first_ok && last_ok && !double_dot
}

/// The parts of the pattern that a concatenation keeps: ASCII username
/// characters with no two dots in a row.
pub open spec fn username_body(s: Seq<char>) -> bool {
    &&& is_ascii_chars(s)
    &&& forall|i: int| 0 <= i < s.len() ==> is_username_char(#[trigger] s[i])
    &&& !has_double_dot(s)
}

proof fn lemma_body_concat(x: Seq<char>, y: Seq<char>)
    requires
        username_body(x),
        username_body(y),
        x.len() > 0,
        y.len() > 0,
        !(x.last() == '.' && y[0] == '.'),
    ensures
        username_body(x + y),
{
    let z = x + y;
    assert forall|i: int| 0 <= i < z.len() implies is_username_char(#[trigger] z[i]) && '\0'
        <= z[i] <= '\u{7f}' by {
        if i < x.len() {
            assert(z[i] == x[i]);
        } else {
            assert(z[i] == y[i - x.len()]);
        }
    }
    if has_double_dot(z) {
        let i = choose|i: int| 0 <= i < z.len() - 1 && z[i] == '.' && #[trigger] z[i + 1] == '.';
        if i + 1 < x.len() {
            assert(x[i] == '.' && x[i + 1] == '.');
            assert(has_double_dot(x));
        } else if i >= x.len() {
            let k = i - x.len();
            assert(y[k] == '.' && y[k + 1] == '.');
            assert(has_double_dot(y));
        } else {
            assert(x.last() == '.' && y[0] == '.');
        }
    }
}

/// Valid usernames compose: two of them joined by one dot, or put side by
/// side, give a valid username, and so does one with an underscore on
/// each side; a text with two dots in a row is never valid.
pub proof fn lemma_username_composition(a: Seq<char>, b: Seq<char>)
    requires
        valid_username_pattern(a),
        valid_username_pattern(b),
    ensures
        valid_username_pattern(a + seq!['.'] + b),
        valid_username_pattern(a + b),
        valid_username_pattern(seq!['_'] + a + seq!['_']),
        forall|s: Seq<char>| has_double_dot(s) ==> !#[trigger] valid_username_pattern(s),
{
    let dot = seq!['.'];
    let us = seq!['_'];
    assert(!has_double_dot(dot));
    assert(!has_double_dot(us));
    lemma_body_concat(a, dot);
    lemma_body_concat(a + dot, b);
    assert((a + dot + b)[0] == a[0]);
    assert((a + dot + b).last() == b.last());
    lemma_body_concat(a, b);
    assert((a + b)[0] == a[0]);
    assert((a + b).last() == b.last());
    lemma_body_concat(us, a);
    lemma_body_concat(us + a, us);
    assert((us + a + us)[0] == '_');
    assert((us + a + us).last() == '_');
}

/// The characters of a username: every ASCII letter, digit and underscore
/// is a valid username on its own, and two of them joined by one dot are
/// one too; a valid username is made of these characters and dots only,
/// and neither starts nor ends with a dot.
pub proof fn lemma_username_characters()
    ensures
        forall|c: char|
            ('a' <= c <= 'z' || 'A' <= c <= 'Z' || '0' <= c <= '9' || c == '_')
                ==> #[trigger] valid_username_pattern(Seq::empty().push(c)),
        forall|c: char, d: char|
            ('a' <= c <= 'z' || 'A' <= c <= 'Z' || '0' <= c <= '9' || c == '_') && ('a' <= d
                <= 'z' || 'A' <= d <= 'Z' || '0' <= d <= '9' || d == '_')
                ==> #[trigger] valid_username_pattern(Seq::empty().push(c).push('.').push(d)),
        forall|s: Seq<char>|
            #[trigger] valid_username_pattern(s) ==> s.len() > 0 && s[0] != '.' && s.last()
                != '.' && forall|i: int|
                0 <= i < s.len() ==> ('a' <= #[trigger] s[i] <= 'z' || 'A' <= s[i] <= 'Z' || '0'
                    <= s[i] <= '9' || s[i] == '_' || s[i] == '.'),
{
    assert forall|c: char|
        ('a' <= c <= 'z' || 'A' <= c <= 'Z' || '0' <= c <= '9' || c == '_') implies
        #[trigger] valid_username_pattern(Seq::empty().push(c)) by {
        let s = Seq::<char>::empty().push(c);
        assert(s[0] == c);
        assert(s.last() == c);
        assert(!has_double_dot(s));
    }
    assert forall|c: char, d: char|
        ('a' <= c <= 'z' || 'A' <= c <= 'Z' || '0' <= c <= '9' || c == '_') && ('a' <= d <= 'z'
            || 'A' <= d <= 'Z' || '0' <= d <= '9' || d == '_') implies
        #[trigger] valid_username_pattern(Seq::empty().push(c).push('.').push(d)) by {
        let s = Seq::<char>::empty().push(c).push('.').push(d);
        assert(s[0] == c && s[1] == '.' && s[2] == d);
        assert(s.last() == d);
        if has_double_dot(s) {
            let i = choose|i: int| 0 <= i < s.len() - 1 && s[i] == '.' && #[trigger] s[i + 1] == '.';
            assert(i == 0 || i == 1);
        }
    }
}

// ---------------------------------------------------------------- clock

#[verifier::external_type_specification]
#[verifier::external_body]
pub struct ExSystemTime(std::time::SystemTime);

/// Reads the system clock.
/// Trusted: `SystemTime::now`; nothing is claimed of the value it returns.
#[verifier::external_body]
fn system_time_now() -> std::time::SystemTime {
    std::time::SystemTime::now()
}

/// The time from the Unix epoch to `t`, or `None` when `t` is earlier.
/// Trusted: `SystemTime::duration_since(UNIX_EPOCH)`, its error turned into
/// `None`; nothing is claimed of the result, which depends on the opaque
/// clock reading.
#[verifier::external_body]
fn duration_since_epoch(t: &std::time::SystemTime) -> Option<std::time::Duration> {
    match t.duration_since(std::time::UNIX_EPOCH) {
        Ok(d) => Some(d),
        Err(_) => None,
    }
}

/// The whole seconds of `d`.
/// Trusted: `Duration::as_secs`; nothing is claimed of the number, since a
/// `Duration` is opaque here.
#[verifier::external_body]
fn duration_as_secs(d: &std::time::Duration) -> u64 {
    d.as_secs()
}

/// The clock reading kept as a `u32` number of seconds: the low 32 bits of
/// the seconds since the epoch; `None` for a clock set before the epoch.
pub fn seconds_to_u32(secs: Option<u64>) -> (r: Option<u32>)
    ensures
        r == match secs {
            Some(s) => Some(s as u32),
            None => None::<u32>,
        },
{
    match secs {
        Some(s) => Some(s as u32),
        None => None,
    }
}

/// The current time in seconds since the Unix epoch, truncated to `u32`;
/// `None` when the clock is set before the epoch.
pub fn time_now_sec() -> Option<u32> {
    let now = system_time_now();
    let secs = match duration_since_epoch(&now) {
        Some(d) => Some(duration_as_secs(&d)),
        None => None,
    };
    seconds_to_u32(secs)
}

// ---------------------------------------------------------- extensions

/// The texts of an optional string.
pub open spec fn opt_view(o: Option<String>) -> Option<Seq<char>> {
    match o {
        Some(s) => Some(s@),
        None => None,
    }
}

/// The first file extension that the `mime_db` table lists for `mime_type`.
pub uninterp spec fn mime_db_extension(mime_type: Seq<char>) -> Option<Seq<char>>;

/// Trusted: `mime_db::extension` looks `mime_type` up in its static table
/// and returns its first extension; the result is named by
/// `mime_db_extension`, a function of the argument alone. No extension in
/// the table is empty.
#[verifier::external_body]
fn mime_db_lookup(mime_type: &str) -> (r: Option<String>)
    ensures
        opt_view(r) == mime_db_extension(mime_type@),
        r matches Some(e) ==> e@.len() > 0,
{
    match mime_db::extension(mime_type) {
        Some(e) => Some(e.to_owned()),
        None => None,
    }
}

/// The extensions this crawler prefers over the table's first choice.
pub open spec fn preferred_extension(mt: Seq<char>) -> Option<Seq<char>> {
    if mt == "image/jpeg"@ {
        Some("jpg"@)
    } else if mt == "audio/mpeg"@ {
        Some("mp3"@)
    } else if mt == "audio/midi"@ {
        Some("midi"@)
    } else if mt == "audio/ogg"@ {
        Some("ogg"@)
    } else if mt == "text/x-pascal"@ {
        Some("pas"@)
    } else if mt == "text/x-asm"@ {
        Some("asm"@)
    } else if mt == "video/quicktime"@ {
        Some("mov"@)
    } else {
        None
    }
}

/// The file extension, with its leading dot, for a MIME type whose table
/// lookup gave `looked_up`.
pub open spec fn extension_for(mt: Seq<char>, looked_up: Option<Seq<char>>) -> Seq<char> {
    let ext = match preferred_extension(mt) {
        Some(e) => e,
        None => match looked_up {
            Some(e) => e,
            None => "unk"@,
        },
    };
    seq!['.'] + ext
}

/// `s` followed by the characters of `t`.
fn append_str(s: &mut String, t: &str)
    ensures
        final(s)@ == old(s)@ + t@,
{
    let v = chars_of(t);
    for i in 0..v.len()
        invariant
            v@ == t@,
            s@ == old(s)@ + v@.take(i as int),
    {
        crate::text::push_char_to(s, v[i]);
        assert(v@.take(i + 1) =~= v@.take(i as int).push(v@[i as int]));
    }
    assert(v@.take(v@.len() as int) =~= v@);
}

fn preferred_extension_of(mt: &str) -> (r: Option<&'static str>)
    ensures
        match r {
            Some(e) => preferred_extension(mt@) == Some(e@) && e@.len() > 0,
            None => preferred_extension(mt@) is None,
        },
{
    proof {
        reveal_strlit("jpg");
        reveal_strlit("mp3");
        reveal_strlit("midi");
        reveal_strlit("ogg");
        reveal_strlit("pas");
        reveal_strlit("asm");
        reveal_strlit("mov");
    }
    if str_equals(mt, "image/jpeg") {
        Some("jpg")
    } else if str_equals(mt, "audio/mpeg") {
        Some("mp3")
    } else if str_equals(mt, "audio/midi") {
        Some("midi")
    } else if str_equals(mt, "audio/ogg") {
        Some("ogg")
    } else if str_equals(mt, "text/x-pascal") {
        Some("pas")
    } else if str_equals(mt, "text/x-asm") {
        Some("asm")
    } else if str_equals(mt, "video/quicktime") {
        Some("mov")
    } else {
        None
    }
}

/// `"." + ext`.
fn dotted(ext: &str) -> (r: String)
    ensures
        r@ == seq!['.'] + ext@,
{
    let mut r = String::new();
    crate::text::push_char_to(&mut r, '.');
    append_str(&mut r, ext);
    r
}

/// The extension, with its leading dot, once the table lookup for a MIME
/// type with no preferred extension gave `looked_up` ("unk" when it gave
/// nothing).
pub fn extension_from_lookup(mt: &str, looked_up: Option<String>) -> (r: String)
    ensures
        r@ == extension_for(mt@, opt_view(looked_up)),
        (looked_up matches Some(e) ==> e@.len() > 0) ==> r@.len() >= 2,
{
    proof {
        reveal_strlit("unk");
    }
    match preferred_extension_of(mt) {
        Some(e) => dotted(e),
        None => match looked_up {
            Some(e) => dotted(e.as_str()),
            None => dotted("unk"),
        },
    }
}

/// The file extension, with its leading dot, for a MIME type: a preferred
/// one for a few common types, else the table's first, else ".unk".
pub fn get_file_extension_from_mime_type(mt: &str) -> (r: String)
    ensures
        r@ == extension_for(mt@, mime_db_extension(mt@)),
        r@.len() >= 2,
{
    match preferred_extension_of(mt) {
        Some(e) => dotted(e),
        None => {
            let looked_up = mime_db_lookup(mt);
            extension_from_lookup(mt, looked_up)
        },
    }
}

/// The extension chosen for a MIME type: the crawler's own for JPEG
/// images, MP3, MIDI and Ogg audio, Pascal and assembly sources and
/// QuickTime video, whatever the table says; for any other type a dot and
/// the table's extension, or ".unk" when the table has none.
pub proof fn lemma_extension_choice(mt: Seq<char>, looked_up: Option<Seq<char>>)
    ensures
        extension_for("image/jpeg"@, looked_up) == ".jpg"@,
        extension_for("audio/mpeg"@, looked_up) == ".mp3"@,
        extension_for("audio/midi"@, looked_up) == ".midi"@,
        extension_for("audio/ogg"@, looked_up) == ".ogg"@,
        extension_for("text/x-pascal"@, looked_up) == ".pas"@,
        extension_for("text/x-asm"@, looked_up) == ".asm"@,
        extension_for("video/quicktime"@, looked_up) == ".mov"@,
        mt != "image/jpeg"@ && mt != "audio/mpeg"@ && mt != "audio/midi"@ && mt != "audio/ogg"@ && mt != "text/x-pascal"@ && mt != "text/x-asm"@ && mt != "video/quicktime"@ ==> extension_for(mt, looked_up) == (match looked_up {
            Some(e) => seq!['.'] + e,
            None => ".unk"@,
        }),
{
    reveal_strlit("image/jpeg");
    reveal_strlit("jpg");
    reveal_strlit(".jpg");
    reveal_strlit("audio/mpeg");
    reveal_strlit("mp3");
    reveal_strlit(".mp3");
    reveal_strlit("audio/midi");
    reveal_strlit("midi");
    reveal_strlit(".midi");
    reveal_strlit("audio/ogg");
    reveal_strlit("ogg");
    reveal_strlit(".ogg");
    reveal_strlit("text/x-pascal");
    reveal_strlit("pas");
    reveal_strlit(".pas");
    reveal_strlit("text/x-asm");
    reveal_strlit("asm");
    reveal_strlit(".asm");
    reveal_strlit("video/quicktime");
    reveal_strlit("mov");
    reveal_strlit(".mov");
    reveal_strlit("unk");
    reveal_strlit(".unk");
    assert("audio/mpeg"@[0] != "image/jpeg"@[0]);
    assert("audio/midi"@[0] != "image/jpeg"@[0]);
    assert("audio/midi"@[7] != "audio/mpeg"@[7]);
    assert("audio/ogg"@[0] != "image/jpeg"@[0]);
    assert("audio/ogg"@[6] != "audio/mpeg"@[6]);
    assert("audio/ogg"@[6] != "audio/midi"@[6]);
    assert("text/x-pascal"@[0] != "image/jpeg"@[0]);
    assert("text/x-pascal"@[0] != "audio/mpeg"@[0]);
    assert("text/x-pascal"@[0] != "audio/midi"@[0]);
    assert("text/x-pascal"@[0] != "audio/ogg"@[0]);
    assert("text/x-asm"@[0] != "image/jpeg"@[0]);
    assert("text/x-asm"@[0] != "audio/mpeg"@[0]);
    assert("text/x-asm"@[0] != "audio/midi"@[0]);
    assert("text/x-asm"@[0] != "audio/ogg"@[0]);
    assert("text/x-asm"@[7] != "text/x-pascal"@[7]);
    assert("video/quicktime"@[0] != "image/jpeg"@[0]);
    assert("video/quicktime"@[0] != "audio/mpeg"@[0]);
    assert("video/quicktime"@[0] != "audio/midi"@[0]);
    assert("video/quicktime"@[0] != "audio/ogg"@[0]);
    assert("video/quicktime"@[0] != "text/x-pascal"@[0]);
    assert("video/quicktime"@[0] != "text/x-asm"@[0]);
    assert(seq!['.'] + "unk"@ =~= ".unk"@);
    assert(seq!['.'] + "jpg"@ =~= ".jpg"@);
    assert(seq!['.'] + "mp3"@ =~= ".mp3"@);
    assert(seq!['.'] + "midi"@ =~= ".midi"@);
    assert(seq!['.'] + "ogg"@ =~= ".ogg"@);
    assert(seq!['.'] + "pas"@ =~= ".pas"@);
    assert(seq!['.'] + "asm"@ =~= ".asm"@);
    assert(seq!['.'] + "mov"@ =~= ".mov"@);
}

// ------------------------------------------------------- seed channels

#[verifier::external_type_specification]
#[verifier::external_body]
pub struct ExThreadRng(rand::rngs::ThreadRng);

/// Trusted: `rand::thread_rng` hands out the thread's generator.
#[verifier::external_body]
fn thread_rng() -> rand::rngs::ThreadRng {
    rand::thread_rng()
}

/// Trusted: `Rng::gen_range(0, len)` returns a value in `[0, len)`; it
/// panics when the range is empty, which `requires` rules out.
#[verifier::external_body]
fn gen_index(rng: &mut rand::rngs::ThreadRng, len: usize) -> (r: usize)
    requires
        len > 0,
    ensures
        r < len,
{
    rng.gen_range(0, len)
}

/// The seed channel names listed one per line in `text`.
pub fn read_tkanal_channels(text: &str) -> (names: Vec<String>)
    ensures
        string_views(names@) == split_lines_spec(text@),
{
    split_lines(text)
}

/// The line of `text` at `idx`, counting from 0.
pub fn line_at(text: &str, idx: usize) -> (line: String)
    requires
        idx < split_lines_spec(text@).len(),
    ensures
        line@ == split_lines_spec(text@)[idx as int],
{
    let names = split_lines(text);
    assert(string_views(names@)[idx as int] == names@[idx as int]@);
    names[idx].clone()
}

/// One of the lines of `text`, picked at random.
pub fn read_tkanal_channels_rand(text: &str) -> (name: String)
    ensures
        exists|i: int|
            0 <= i < split_lines_spec(text@).len() && name@ == #[trigger] split_lines_spec(
                text@,
            )[i],
{
    let count = split_lines(text).len();
    proof {
        crate::text::lemma_split_join(text@);
    }
    let mut rng = thread_rng();
    let idx = gen_index(&mut rng, count);
    line_at(text, idx)
}

} // verus!
