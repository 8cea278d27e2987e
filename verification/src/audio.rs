//! Audio devices as `pactl list sources short` / `pactl list sinks short`
//! report them: one device per line, its id and name being the first two
//! white-space separated fields.

use vstd::prelude::*;
use crate::text::{chars_of, is_white_space, is_white_space_char, string_from_chars};
use vstd::string::StringExecFns;
use vstd::utf8::{decode_utf8, valid_utf8};

verus! {

/// An audio input or output device.
pub struct AudioDevice {
    pub id: String,
    pub name: String,
}

impl AudioDevice {
    /// The device as a pair of character sequences: (id, name).
    pub open spec fn fields(&self) -> (Seq<char>, Seq<char>) {
        (self.id@, self.name@)
    }
}

/// The devices of a listing, each as (id, name).
pub open spec fn device_fields(devices: Seq<AudioDevice>) -> Seq<(Seq<char>, Seq<char>)> {
    devices.map_values(|d: AudioDevice| d.fields())
}

// ---------------------------------------------------------------------------
// Lines
/// Splits `s` at each line feed: the segments that a line feed ended, in
/// order, and the segment after the last line feed (empty if there is none).
pub open spec fn newline_scan(s: Seq<char>) -> (Seq<Seq<char>>, Seq<char>)
    decreases s.len(),
{
    if s.len() == 0 {
        (Seq::empty(), Seq::empty())
    } else {
        let (done, cur) = newline_scan(s.drop_last());
        if s.last() == '\n' {
            (done.push(cur), Seq::empty())
        } else {
            (done, cur.push(s.last()))
        }
    }
}

/// A line without the carriage return that ends it, if any.
pub open spec fn strip_cr(line: Seq<char>) -> Seq<char> {
    if line.len() > 0 && line.last() == '\r' {
        line.drop_last()
    } else {
        line
    }
}

/// The lines of `s` as `str::lines` yields them: lines end at `\n` or `\r\n`,
/// the terminator is not part of the line, and a last line without
/// terminator counts only when it is not empty.
pub open spec fn text_lines(s: Seq<char>) -> Seq<Seq<char>> {
    let (done, cur) = newline_scan(s);
    let ended = done.map_values(|l: Seq<char>| strip_cr(l));
    if cur.len() == 0 {
        ended
    } else {
        ended.push(cur)
    }
}

// ---------------------------------------------------------------------------
// Words
/// Scans `s` for words: the words that white space has already closed, and
/// the word being read at the end of `s` (empty if `s` ends in white space).
pub open spec fn word_scan(s: Seq<char>) -> (Seq<Seq<char>>, Seq<char>)
    decreases s.len(),
{
    if s.len() == 0 {
        (Seq::empty(), Seq::empty())
    } else {
        let (done, cur) = word_scan(s.drop_last());
        if is_white_space(s.last()) {
            if cur.len() > 0 {
                (done.push(cur), Seq::empty())
            } else {
                (done, Seq::empty())
            }
        } else {
            (done, cur.push(s.last()))
        }
    }
}

/// The maximal runs of non-white-space characters of `s`, in order, as
/// `str::split_whitespace` yields them.
pub open spec fn words(s: Seq<char>) -> Seq<Seq<char>> {
    let (done, cur) = word_scan(s);
    if cur.len() > 0 {
        done.push(cur)
    } else {
        done
    }
}

// ---------------------------------------------------------------------------
// Devices
/// The device that a line describes: its first two words, if it has two.
pub open spec fn line_device(line: Seq<char>) -> Option<(Seq<char>, Seq<char>)> {
    let w = words(line);
    if w.len() >= 2 {
        Some((w[0], w[1]))
    } else {
        None
    }
}

/// The devices that the lines describe, in order; lines with fewer than two
/// words are skipped.
pub open spec fn devices_of_lines(lines: Seq<Seq<char>>) -> Seq<(Seq<char>, Seq<char>)>
    decreases lines.len(),
{
    if lines.len() == 0 {
        Seq::empty()
    } else {
        let prev = devices_of_lines(lines.drop_last());
        match line_device(lines.last()) {
            Some(d) => prev.push(d),
            None => prev,
        }
    }
}

/// The devices that a `pactl ... short` listing describes.
pub open spec fn pactl_devices(output: Seq<char>) -> Seq<(Seq<char>, Seq<char>)> {
    devices_of_lines(text_lines(output))
}

pub open spec fn views_of(v: Seq<Vec<char>>) -> Seq<Seq<char>> {
    v.map_values(|x: Vec<char>| x@)
}

/// The lines of `text`, as `text_lines` defines them.
pub fn split_lines(text: &Vec<char>) -> (lines: Vec<Vec<char>>)
    ensures
        views_of(lines@) == text_lines(text@),
{
    let mut done: Vec<Vec<char>> = Vec::new();
    let mut cur: Vec<char> = Vec::new();
    let mut pending_cr = false;
    let n = text.len();
    for i in 0..n
        invariant
            n == text@.len(),
            views_of(done@) == newline_scan(text@.take(i as int)).0.map_values(
                |l: Seq<char>| strip_cr(l),
            ),
            newline_scan(text@.take(i as int)).1 == (if pending_cr {
                cur@.push('\r')
            } else {
                cur@
            }),
            !pending_cr ==> (cur@.len() == 0 || cur@.last() != '\r'),
    {
        let c = text[i];
        let ghost prefix = text@.take(i as int);
        assert(text@.take(i + 1).drop_last() =~= prefix);
        assert(text@.take(i + 1).last() == c);
        let ghost old_done = views_of(done@);
        let ghost scan = newline_scan(prefix);
        if c == '\n' {
            let ghost full = scan.1;
            assert(strip_cr(full) =~= cur@);
            let line = cur;
            cur = Vec::new();
            done.push(line);
            pending_cr = false;
            assert(views_of(done@) =~= old_done.push(strip_cr(full)));
            assert(newline_scan(text@.take(i + 1)).0 == scan.0.push(full));
            assert(newline_scan(text@.take(i + 1)).0.map_values(|l: Seq<char>| strip_cr(l))
                =~= scan.0.map_values(|l: Seq<char>| strip_cr(l)).push(strip_cr(full)));
        } else if c == '\r' {
            if pending_cr {
                cur.push('\r');
            }
            pending_cr = true;
        } else {
            if pending_cr {
                cur.push('\r');
                pending_cr = false;
            }
            cur.push(c);
        }
    }
    assert(text@.take(n as int) =~= text@);
    if pending_cr {
        cur.push('\r');
    }
    let ghost ended = views_of(done@);
    if cur.len() > 0 {
        done.push(cur);
        assert(views_of(done@) =~= ended.push(newline_scan(text@).1));
    }
    done
}

/// The words of `text`, as `words` defines them.
pub fn split_words(text: &Vec<char>) -> (ws: Vec<Vec<char>>)
    ensures
        views_of(ws@) == words(text@),
{
    let mut done: Vec<Vec<char>> = Vec::new();
    let mut cur: Vec<char> = Vec::new();
    let n = text.len();
    for i in 0..n
        invariant
            n == text@.len(),
            views_of(done@) == word_scan(text@.take(i as int)).0,
            cur@ == word_scan(text@.take(i as int)).1,
    {
        let c = text[i];
        let ghost prefix = text@.take(i as int);
        assert(text@.take(i + 1).drop_last() =~= prefix);
        assert(text@.take(i + 1).last() == c);
        let ghost old_done = views_of(done@);
        if is_white_space_char(c) {
            if cur.len() > 0 {
                let w = cur;
                cur = Vec::new();
                done.push(w);
                assert(views_of(done@) =~= old_done.push(w@));
            }
        } else {
            cur.push(c);
        }
    }
    assert(text@.take(n as int) =~= text@);
    let ghost closed = views_of(done@);
    if cur.len() > 0 {
        done.push(cur);
        assert(views_of(done@) =~= closed.push(word_scan(text@).1));
    }
    done
}

/// Parses the output of `pactl list sources short` (or `sinks short`): each
/// line with at least two white-space separated fields gives a device whose
/// id is the first field and whose name is the second; other lines are
/// skipped.
pub fn parse_pactl_output(output: &str) -> (devices: Vec<AudioDevice>)
    ensures
        device_fields(devices@) == pactl_devices(output@),
{
    let chars = chars_of(output);
    let lines = split_lines(&chars);
    let mut devices: Vec<AudioDevice> = Vec::new();
    let n = lines.len();
    for i in 0..n
        invariant
            n == lines@.len(),
            views_of(lines@) == text_lines(output@),
            device_fields(devices@) == devices_of_lines(views_of(lines@).take(i as int)),
    {
        let ghost taken = views_of(lines@).take(i + 1);
        assert(taken.drop_last() =~= views_of(lines@).take(i as int));
        assert(taken.last() == lines@[i as int]@);
        let ghost before = device_fields(devices@);
        let ws = split_words(&lines[i]);
        if ws.len() >= 2 {
            assert(ws@[0]@ == views_of(ws@)[0]);
            assert(ws@[1]@ == views_of(ws@)[1]);
            let device = AudioDevice { id: string_from_chars(&ws[0]), name: string_from_chars(&ws[1]) };
            devices.push(device);
            assert(device_fields(devices@) =~= before.push(device.fields()));
        }
    }
    assert(views_of(lines@).take(n as int) =~= views_of(lines@));
    devices
}

// ---------------------------------------------------------------------------
// Running pactl
/// Which devices to list: capture sources or playback sinks.
pub enum AudioSource {
    Inputs,
    Outputs,
}

/// The arguments given to `pactl` to list the devices of `source`.
pub open spec fn pactl_argument_views(source: AudioSource) -> Seq<Seq<char>> {
    match source {
        AudioSource::Inputs => seq!["list"@, "sources"@, "short"@],
        AudioSource::Outputs => seq!["list"@, "sinks"@, "short"@],
    }
}

/// The arguments of the `pactl` command that lists the devices of `source`:
/// `list sources short` for inputs, `list sinks short` for outputs.
pub fn pactl_arguments(source: AudioSource) -> (args: Vec<&'static str>)
    ensures
        args@.len() == 3,
        forall|i: int| 0 <= i < 3 ==> #[trigger] args@[i]@ == pactl_argument_views(source)[i],
{
    let mut args: Vec<&'static str> = Vec::new();
    args.push("list");
    match source {
        AudioSource::Inputs => args.push("sources"),
        AudioSource::Outputs => args.push("sinks"),
    }
    args.push("short");
    args
}

/// What a finished `pactl` process reported.
pub struct PactlOutput {
    /// Whether the process exited successfully.
    pub success: bool,
    /// The exit status, as the platform describes it.
    pub status: String,
    pub stdout: Vec<u8>,
    pub stderr: Vec<u8>,
}

/// The text that `String::from_utf8_lossy` makes of `bytes`.
pub uninterp spec fn lossy_utf8(bytes: Seq<u8>) -> Seq<char>;

/// Decodes bytes as UTF-8, replacing invalid sequences
/// (`String::from_utf8_lossy`). Trusted: the result is the lossy decoding of
/// the bytes; for valid UTF-8 it is the text that the bytes encode. What is
/// left unsaid is how invalid sequences are replaced.
#[verifier::external_body]
fn utf8_lossy(bytes: &Vec<u8>) -> (s: String)
    ensures
        s@ == lossy_utf8(bytes@),
        valid_utf8(bytes@) ==> s@ == decode_utf8(bytes@),
{
    String::from_utf8_lossy(bytes.as_slice()).into_owned()
}

/// The error reported when `pactl` could not be started.
pub open spec fn spawn_failure_message(reason: Seq<char>) -> Seq<char> {
    "Failed to run pactl: "@ + reason
}

/// The error reported when `pactl` exited unsuccessfully.
pub open spec fn exit_failure_message(status: Seq<char>, stderr: Seq<u8>) -> Seq<char> {
    "pactl exited with status "@ + status + ": "@ + lossy_utf8(stderr)
}

/// Turns the outcome of running `pactl` into the device list: the devices of
/// its standard output when it succeeded, an error message otherwise.
pub fn pactl_listing(outcome: Result<PactlOutput, String>) -> (r: Result<Vec<AudioDevice>, String>)
    ensures
        match outcome {
            Err(reason) => r matches Err(m) && m@ == spawn_failure_message(reason@),
            Ok(out) => if out.success {
                r matches Ok(ds) && device_fields(ds@) == pactl_devices(lossy_utf8(out.stdout@))
            } else {
                r matches Err(m) && m@ == exit_failure_message(out.status@, out.stderr@)
            },
        },
{
    match outcome {
        Err(reason) => {
            let mut m = "Failed to run pactl: ".to_owned();
            m.append(reason.as_str());
            Err(m)
        },
        Ok(out) => {
            if out.success {
                let text = utf8_lossy(&out.stdout);
                Ok(parse_pactl_output(text.as_str()))
            } else {
                let mut m = "pactl exited with status ".to_owned();
                m.append(out.status.as_str());
                m.append(": ");
                let err = utf8_lossy(&out.stderr);
                m.append(err.as_str());
                Err(m)
            }
        },
    }
}

// ---------------------------------------------------------------------------
// Laws

proof fn lemma_newline_scan_join(s: Seq<char>, t: Seq<char>)
    ensures
        newline_scan(s + seq!['\n'] + t) == (
            newline_scan(s).0.push(newline_scan(s).1) + newline_scan(t).0,
            newline_scan(t).1,
        ),
    decreases t.len(),
{
    let joined = s + seq!['\n'] + t;
    if t.len() == 0 {
        assert(joined.drop_last() =~= s);
        assert(newline_scan(t).0 =~= Seq::<Seq<char>>::empty());
        assert(newline_scan(s).0.push(newline_scan(s).1) + newline_scan(t).0 =~= newline_scan(
            s,
        ).0.push(newline_scan(s).1));
    } else {
        lemma_newline_scan_join(s, t.drop_last());
        assert(joined.drop_last() =~= s + seq!['\n'] + t.drop_last());
        assert(joined.last() == t.last());
        let head = newline_scan(s).0.push(newline_scan(s).1);
        let (d, c) = newline_scan(t.drop_last());
        if t.last() == '\n' {
            assert(head + d.push(c) =~= (head + d).push(c));
        }
    }
}

proof fn lemma_words_ignore_trailing_cr(line: Seq<char>)
    ensures
        words(strip_cr(line)) == words(line),
{
    if line.len() > 0 && line.last() == '\r' {
        assert(is_white_space('\r'));
        let (done, cur) = word_scan(line.drop_last());
        if cur.len() > 0 {
            assert(word_scan(line) == (done.push(cur), Seq::<char>::empty()));
        } else {
            assert(word_scan(line) == (done, Seq::<char>::empty()));
        }
    }
}

proof fn lemma_devices_of_lines_append(x: Seq<Seq<char>>, y: Seq<Seq<char>>)
    ensures
        devices_of_lines(x + y) == devices_of_lines(x) + devices_of_lines(y),
    decreases y.len(),
{
    if y.len() == 0 {
        assert(x + y =~= x);
        assert(devices_of_lines(x) + devices_of_lines(y) =~= devices_of_lines(x));
    } else {
        lemma_devices_of_lines_append(x, y.drop_last());
        assert((x + y).drop_last() =~= x + y.drop_last());
        assert((x + y).last() == y.last());
        match line_device(y.last()) {
            Some(d) => {
                assert(devices_of_lines(x) + devices_of_lines(y.drop_last()).push(d) =~= (
                devices_of_lines(x) + devices_of_lines(y.drop_last())).push(d));
            },
            None => {},
        }
    }
}

proof fn lemma_single_line_devices(line: Seq<char>)
    ensures
        devices_of_lines(seq![line]) == match line_device(line) {
            Some(d) => seq![d],
            None => Seq::<(Seq<char>, Seq<char>)>::empty(),
        },
{
    assert(seq![line].drop_last() =~= Seq::<Seq<char>>::empty());
    assert(seq![line].last() == line);
    assert(devices_of_lines(Seq::<Seq<char>>::empty()) == Seq::<(Seq<char>, Seq<char>)>::empty());
    match line_device(line) {
        Some(d) => {
            assert(Seq::<(Seq<char>, Seq<char>)>::empty().push(d) =~= seq![d]);
        },
        None => {},
    }
}

/// A listing is read line by line: the devices of two listings joined by a
/// line feed are the devices of the first followed by those of the second.
pub proof fn lemma_listing_join(first: Seq<char>, second: Seq<char>)
    ensures
        pactl_devices(first + seq!['\n'] + second) == pactl_devices(first) + pactl_devices(
            second,
        ),
{
    lemma_newline_scan_join(first, second);
    let (d1, c1) = newline_scan(first);
    let (d2, c2) = newline_scan(second);
    let strip = |l: Seq<char>| strip_cr(l);
    let ended1 = d1.map_values(strip);
    let lines_second = text_lines(second);
    assert(text_lines(first + seq!['\n'] + second) =~= ended1 + seq![strip_cr(c1)]
        + lines_second);
    lemma_devices_of_lines_append(ended1 + seq![strip_cr(c1)], lines_second);
    lemma_devices_of_lines_append(ended1, seq![strip_cr(c1)]);
    lemma_words_ignore_trailing_cr(c1);
    lemma_single_line_devices(strip_cr(c1));
    lemma_single_line_devices(c1);
    if c1.len() == 0 {
        assert(words(c1) =~= Seq::<Seq<char>>::empty());
        assert(text_lines(first) == ended1);
        assert(devices_of_lines(ended1) + Seq::<(Seq<char>, Seq<char>)>::empty()
            =~= devices_of_lines(ended1));
    } else {
        assert(text_lines(first) =~= ended1 + seq![c1]);
        lemma_devices_of_lines_append(ended1, seq![c1]);
    }
}

spec fn free_of_white_space(w: Seq<char>) -> bool {
    forall|k: int| 0 <= k < w.len() ==> !is_white_space(#[trigger] w[k])
}

proof fn lemma_word_scan_extend(p: Seq<char>, w: Seq<char>)
    requires
        free_of_white_space(w),
    ensures
        word_scan(p + w) == (word_scan(p).0, word_scan(p).1 + w),
    decreases w.len(),
{
    if w.len() == 0 {
        assert(p + w =~= p);
        assert(word_scan(p).1 + w =~= word_scan(p).1);
    } else {
        let w0 = w.drop_last();
        assert(free_of_white_space(w0)) by {
            assert forall|k: int| 0 <= k < w0.len() implies !is_white_space(#[trigger] w0[k]) by {
                assert(w0[k] == w[k]);
            }
        }
        lemma_word_scan_extend(p, w0);
        assert((p + w).drop_last() =~= p + w0);
        assert((p + w).last() == w[w.len() - 1]);
        assert(!is_white_space(w[w.len() - 1]));
        assert((word_scan(p).1 + w0).push(w.last()) =~= word_scan(p).1 + w);
    }
}

proof fn lemma_newline_scan_single(x: Seq<char>)
    requires
        forall|k: int| 0 <= k < x.len() ==> #[trigger] x[k] != '\n',
    ensures
        newline_scan(x) == (Seq::<Seq<char>>::empty(), x),
    decreases x.len(),
{
    if x.len() > 0 {
        let x0 = x.drop_last();
        assert forall|k: int| 0 <= k < x0.len() implies #[trigger] x0[k] != '\n' by {
            assert(x0[k] == x[k]);
        }
        lemma_newline_scan_single(x0);
        assert(x0.push(x.last()) =~= x);
    }
}

/// A line made of two words separated by one white-space character (other
/// than a line feed) describes exactly one device, whose id is the first
/// word and whose name is the second, both whole, whatever their length.
pub proof fn lemma_two_words_one_device(a: Seq<char>, sep: char, b: Seq<char>)
    requires
        a.len() > 0,
        b.len() > 0,
        forall|k: int| 0 <= k < a.len() ==> !is_white_space(#[trigger] a[k]),
        forall|k: int| 0 <= k < b.len() ==> !is_white_space(#[trigger] b[k]),
        is_white_space(sep),
        sep != '\n',
    ensures
        pactl_devices(a + seq![sep] + b) == seq![(a, b)],
{
    let e = Seq::<char>::empty();
    let line = a + seq![sep] + b;
    assert(free_of_white_space(a));
    assert(free_of_white_space(b));
    // the words of the line
    lemma_word_scan_extend(e, a);
    assert(e + a =~= a);
    assert(word_scan(e) == (Seq::<Seq<char>>::empty(), e));
    assert(word_scan(a).1 =~= a);
    let with_sep = a + seq![sep];
    assert(with_sep.drop_last() =~= a);
    assert(with_sep.last() == sep);
    assert(word_scan(with_sep) == (Seq::<Seq<char>>::empty().push(a), e));
    lemma_word_scan_extend(with_sep, b);
    assert(with_sep + b =~= line);
    assert(e + b =~= b);
    assert(words(line) =~= seq![a, b]);
    // the line is the only line of the listing
    assert forall|k: int| 0 <= k < line.len() implies #[trigger] line[k] != '\n' by {
        if k < a.len() {
            assert(line[k] == a[k]);
            assert(is_white_space('\n'));
        } else if k == a.len() {
            assert(line[k] == sep);
        } else {
            assert(line[k] == b[k - a.len() - 1]);
            assert(is_white_space('\n'));
        }
    }
    lemma_newline_scan_single(line);
    assert(text_lines(line) =~= seq![line]);
    lemma_single_line_devices(line);
}

/// Every device field is a whole word: not empty and free of white space.
pub proof fn lemma_device_fields_are_words(output: Seq<char>)
    ensures
        forall|i: int|
            0 <= i < pactl_devices(output).len() ==> {
                let d = #[trigger] pactl_devices(output)[i];
                &&& d.0.len() > 0
                &&& d.1.len() > 0
                &&& forall|k: int| 0 <= k < d.0.len() ==> !is_white_space(#[trigger] d.0[k])
                &&& forall|k: int| 0 <= k < d.1.len() ==> !is_white_space(#[trigger] d.1[k])
            },
{
    lemma_devices_are_words(text_lines(output));
}

spec fn is_word(w: Seq<char>) -> bool {
    &&& w.len() > 0
    &&& forall|k: int| 0 <= k < w.len() ==> !is_white_space(#[trigger] w[k])
}

proof fn lemma_word_scan_words(s: Seq<char>)
    ensures
        forall|i: int| 0 <= i < word_scan(s).0.len() ==> is_word(#[trigger] word_scan(s).0[i]),
        forall|k: int| 0 <= k < word_scan(s).1.len() ==> !is_white_space(#[trigger] word_scan(s).1[k]),
    decreases s.len(),
{
    if s.len() > 0 {
        lemma_word_scan_words(s.drop_last());
        let (done, cur) = word_scan(s.drop_last());
        if !is_white_space(s.last()) {
            assert forall|k: int| 0 <= k < cur.push(s.last()).len() implies !is_white_space(
                #[trigger] cur.push(s.last())[k],
            ) by {
                if k < cur.len() {
                    assert(cur.push(s.last())[k] == cur[k]);
                }
            }
        } else if cur.len() > 0 {
            assert forall|i: int| 0 <= i < done.push(cur).len() implies is_word(
                #[trigger] done.push(cur)[i],
            ) by {
                if i < done.len() {
                    assert(done.push(cur)[i] == done[i]);
                }
            }
        }
    }
}

proof fn lemma_words_are_words(s: Seq<char>)
    ensures
        forall|i: int| 0 <= i < words(s).len() ==> is_word(#[trigger] words(s)[i]),
{
    lemma_word_scan_words(s);
    let (done, cur) = word_scan(s);
    if cur.len() > 0 {
        assert forall|i: int| 0 <= i < done.push(cur).len() implies is_word(
            #[trigger] done.push(cur)[i],
        ) by {
            if i < done.len() {
                assert(done.push(cur)[i] == done[i]);
            }
        }
    }
}

proof fn lemma_devices_are_words(lines: Seq<Seq<char>>)
    ensures
        forall|i: int|
            0 <= i < devices_of_lines(lines).len() ==> is_word(
                (#[trigger] devices_of_lines(lines)[i]).0,
            ) && is_word(devices_of_lines(lines)[i].1),
    decreases lines.len(),
{
    if lines.len() > 0 {
        lemma_devices_are_words(lines.drop_last());
        let prev = devices_of_lines(lines.drop_last());
        lemma_words_are_words(lines.last());
        match line_device(lines.last()) {
            Some(d) => {
                assert(is_word(words(lines.last())[0]));
                assert(is_word(words(lines.last())[1]));
                assert forall|i: int| 0 <= i < prev.push(d).len() implies is_word(
                    (#[trigger] prev.push(d)[i]).0,
                ) && is_word(prev.push(d)[i].1) by {
                    if i < prev.len() {
                        assert(prev.push(d)[i] == prev[i]);
                    }
                }
            },
            None => {},
        }
    }
}

} // verus!
