use vstd::prelude::*;

use crate::text::{chars_of, same_chars, text_of};

verus! {

// ---- the format, as mathematics ----

/// The typed content of a metadata report; every field may be absent.
pub struct MetadataModel {
    pub memory: Option<u32>,
    pub exit_code: Option<u32>,
    pub exit_signal: Option<u32>,
    pub exit_message: Option<Seq<char>>,
    pub exit_status: Option<Seq<char>>,
    pub cpu_time: Option<u32>,
    pub wall_time: Option<u32>,
}

pub open spec fn empty_model() -> MetadataModel {
    MetadataModel {
        memory: None,
        exit_code: None,
        exit_signal: None,
        exit_message: None,
        exit_status: None,
        cpu_time: None,
        wall_time: None,
    }
}

/// `i` is the position of the first `c` in `s`, or `s.len()` when `s` holds none.
pub open spec fn first_at(s: Seq<char>, c: char, i: int) -> bool {
    &&& 0 <= i <= s.len()
    &&& i < s.len() ==> s[i] == c
    &&& forall|j: int| 0 <= j < i ==> s[j] != c
}

pub open spec fn first_index(s: Seq<char>, c: char) -> int {
    choose|i: int| first_at(s, c, i)
}

/// The text split at every newline: `k` newlines give `k + 1` pieces.
pub open spec fn split_newlines(s: Seq<char>) -> Seq<Seq<char>>
    decreases s.len(),
{
    if s.len() == 0 {
        seq![Seq::empty()]
    } else if s.last() == '\n' {
        split_newlines(s.drop_last()).push(Seq::empty())
    } else {
        let p = split_newlines(s.drop_last());
        p.update(p.len() - 1, p.last().push(s.last()))
    }
}

/// The lines of a report: the newline after the last line is optional.
pub open spec fn lines_of(s: Seq<char>) -> Seq<Seq<char>> {
    let p = split_newlines(s);
    if p.last().len() == 0 {
        p.drop_last()
    } else {
        p
    }
}

/// A line splits at its first colon into key and value, so that a message or status may
/// itself hold colons; a line with no colon has neither.
pub open spec fn split_line(line: Seq<char>) -> Option<(Seq<char>, Seq<char>)> {
    let i = first_index(line, ':');
    if i < line.len() {
        Some((line.take(i), line.skip(i + 1)))
    } else {
        None
    }
}

pub open spec fn is_digit(c: char) -> bool {
    '0' <= c <= '9'
}

pub open spec fn all_digits(s: Seq<char>) -> bool {
    forall|i: int| 0 <= i < s.len() ==> is_digit(s[i])
}

/// The number that a string of decimal digits writes.
pub open spec fn digits_value(s: Seq<char>) -> nat
    decreases s.len(),
{
    if s.len() == 0 {
        0
    } else {
        digits_value(s.drop_last()) * 10 + (s.last() as nat - '0' as nat) as nat
    }
}

/// The digits of a decimal, without its optional leading `+`.
pub open spec fn unsigned_digits(s: Seq<char>) -> Seq<char> {
    if s.len() > 0 && s[0] == '+' {
        s.drop_first()
    } else {
        s
    }
}

/// An unsigned 32-bit decimal: an optional `+`, then at least one digit, at most `u32::MAX`.
pub open spec fn parse_u32(s: Seq<char>) -> Option<u32> {
    let d = unsigned_digits(s);
    if d.len() > 0 && all_digits(d) && digits_value(d) <= u32::MAX {
        Some(digits_value(d) as u32)
    } else {
        None
    }
}

/// Whole seconds of a decimal time: the fraction after a `.`, all digits, is dropped.
pub open spec fn parse_seconds(s: Seq<char>) -> Option<u32> {
    let i = first_index(s, '.');
    if i < s.len() {
        if all_digits(s.skip(i + 1)) {
            parse_u32(s.take(i))
        } else {
            None
        }
    } else {
        parse_u32(s)
    }
}

/// The keys that the decoder reads; every other key is skipped.
pub enum MetadataKey {
    Memory,
    ExitCode,
    ExitSignal,
    Message,
    Status,
    CpuTime,
    WallTime,
    Other,
}

pub open spec fn key_of(k: Seq<char>) -> MetadataKey {
    if k == seq!['c', 'g', 'm', 'e', 'm'] {
        MetadataKey::Memory
    } else if k == seq!['e', 'x', 'i', 't', 'c', 'o', 'd', 'e'] {
        MetadataKey::ExitCode
    } else if k == seq!['e', 'x', 'i', 't', 's', 'i', 'g'] {
        MetadataKey::ExitSignal
    } else if k == seq!['m', 'e', 's', 's', 'a', 'g', 'e'] {
        MetadataKey::Message
    } else if k == seq!['s', 't', 'a', 't', 'u', 's'] {
        MetadataKey::Status
    } else if k == seq!['t', 'i', 'm', 'e'] {
        MetadataKey::CpuTime
    } else if k == seq!['t', 'i', 'm', 'e', '-', 'w', 'a', 'l', 'l'] {
        MetadataKey::WallTime
    } else {
        MetadataKey::Other
    }
}

/// The report after one more line, or `None` when the line is malformed.
pub open spec fn apply_line(m: MetadataModel, line: Seq<char>) -> Option<MetadataModel> {
    match split_line(line) {
        None => None,
        Some((k, v)) => match key_of(k) {
            MetadataKey::Memory => match parse_u32(v) {
                Some(n) => Some(MetadataModel { memory: Some(n), ..m }),
                None => None,
            },
            MetadataKey::ExitCode => match parse_u32(v) {
                Some(n) => Some(MetadataModel { exit_code: Some(n), ..m }),
                None => None,
            },
            MetadataKey::ExitSignal => match parse_u32(v) {
                Some(n) => Some(MetadataModel { exit_signal: Some(n), ..m }),
                None => None,
            },
            MetadataKey::Message => Some(MetadataModel { exit_message: Some(v), ..m }),
            MetadataKey::Status => Some(MetadataModel { exit_status: Some(v), ..m }),
            MetadataKey::CpuTime => match parse_seconds(v) {
                Some(n) => Some(MetadataModel { cpu_time: Some(n), ..m }),
                None => None,
            },
            MetadataKey::WallTime => match parse_seconds(v) {
                Some(n) => Some(MetadataModel { wall_time: Some(n), ..m }),
                None => None,
            },
            MetadataKey::Other => Some(m),
        },
    }
}

/// Decoding of lines in order: the report, or the index of the first malformed line.
pub open spec fn decode_lines(ls: Seq<Seq<char>>) -> Result<MetadataModel, nat>
    decreases ls.len(),
{
    if ls.len() == 0 {
        Ok(empty_model())
    } else {
        match decode_lines(ls.drop_last()) {
            Err(e) => Err(e),
            Ok(m) => match apply_line(m, ls.last()) {
                Some(m2) => Ok(m2),
                None => Err((ls.len() - 1) as nat),
            },
        }
    }
}

pub open spec fn decode_spec(text: Seq<char>) -> Result<MetadataModel, nat> {
    decode_lines(lines_of(text))
}

// ---- lemmas ----

proof fn lemma_first_unique(s: Seq<char>, c: char, i: int)
    requires
        first_at(s, c, i),
    ensures
        first_index(s, c) == i,
{
    let k = first_index(s, c);
    assert(first_at(s, c, k));
    if k < i {
        assert(s[k] != c);
    } else if i < k {
        assert(s[i] != c);
    }
}

proof fn lemma_digits_grow(s: Seq<char>, j: int)
    requires
        0 <= j <= s.len(),
    ensures
        digits_value(s.take(j)) <= digits_value(s),
    decreases s.len(),
{
    if j < s.len() {
        assert(s.drop_last().take(j) =~= s.take(j));
        lemma_digits_grow(s.drop_last(), j);
    } else {
        assert(s.take(j) =~= s);
    }
}

/// Splitting a prefix of a text gives the same complete pieces as splitting the text.
proof fn lemma_split_prefix(s: Seq<char>, j: int)
    requires
        0 <= j <= s.len(),
    ensures
        split_newlines(s.take(j)).len() <= split_newlines(s).len(),
        forall|k: int|
            0 <= k < split_newlines(s.take(j)).len() - 1 ==> split_newlines(s)[k]
                == split_newlines(s.take(j))[k],
    decreases s.len(),
{
    if j < s.len() {
        assert(s.drop_last().take(j) =~= s.take(j));
        lemma_split_prefix(s.drop_last(), j);
    } else {
        assert(s.take(j) =~= s);
    }
}

/// A malformed line stays the first malformed line whatever lines follow it.
proof fn lemma_decode_prefix(ls: Seq<Seq<char>>, k: int)
    requires
        0 <= k <= ls.len(),
        decode_lines(ls.take(k)) is Err,
    ensures
        decode_lines(ls) == decode_lines(ls.take(k)),
    decreases ls.len(),
{
    if k < ls.len() {
        assert(ls.drop_last().take(k) =~= ls.take(k));
        lemma_decode_prefix(ls.drop_last(), k);
    } else {
        assert(ls.take(k) =~= ls);
    }
}

// ---- executable decoder ----

/// Decoded report.
pub struct Metadata {
    pub memory: Option<u32>,
    pub exit_code: Option<u32>,
    pub exit_signal: Option<u32>,
    pub exit_message: Option<String>,
    pub exit_status: Option<String>,
    pub cpu_time: Option<u32>,
    pub wall_time: Option<u32>,
}

pub open spec fn text_view(t: Option<String>) -> Option<Seq<char>> {
    match t {
        Some(s) => Some(s@),
        None => None,
    }
}

impl View for Metadata {
    type V = MetadataModel;

    open spec fn view(&self) -> MetadataModel {
        MetadataModel {
            memory: self.memory,
            exit_code: self.exit_code,
            exit_signal: self.exit_signal,
            exit_message: text_view(self.exit_message),
            exit_status: text_view(self.exit_status),
            cpu_time: self.cpu_time,
            wall_time: self.wall_time,
        }
    }
}

/// A malformed report: the zero-based index of its first bad line.
pub struct MetadataParseError {
    pub line: usize,
}

/// Position of the first `c` in `s`, or `s.len()` when there is none.
pub fn find_char(s: &[char], c: char) -> (r: usize)
    ensures
        r == first_index(s@, c),
        first_at(s@, c, r as int),
{
    let mut i: usize = 0;
    while i < s.len() && s[i] != c
        invariant
            i <= s.len(),
            forall|j: int| 0 <= j < i ==> s@[j] != c,
        decreases s.len() - i,
    {
        i += 1;
    }
    proof {
        lemma_first_unique(s@, c, i as int);
    }
    i
}

/// Splits a metadata line at its first colon into key and value; `None` when it has no colon.
pub fn split_metadata_line(line: &[char]) -> (r: Option<(Vec<char>, Vec<char>)>)
    ensures
        match r {
            Some((k, v)) => split_line(line@) == Some((k@, v@)),
            None => split_line(line@) is None,
        },
{
    let i = find_char(line, ':');
    if i == line.len() {
        return None;
    }
    let mut key: Vec<char> = Vec::new();
    let mut value: Vec<char> = Vec::new();
    let mut j: usize = 0;
    while j < line.len()
        invariant
            i < line.len(),
            j <= line.len(),
            j <= i ==> key@ == line@.take(j as int) && value@.len() == 0,
            j > i ==> key@ == line@.take(i as int) && value@ == line@.subrange(i + 1, j as int),
        decreases line.len() - j,
    {
        if j < i {
            key.push(line[j]);
            assert(key@ =~= line@.take(j + 1));
        } else if j > i {
            value.push(line[j]);
            assert(value@ =~= line@.subrange(i + 1, j + 1));
        } else {
            assert(value@ =~= line@.subrange(i + 1, j + 1));
        }
        j += 1;
    }
    assert(value@ =~= line@.skip(i + 1));
    Some((key, value))
}

pub fn is_digit_char(c: char) -> (r: bool)
    ensures
        r == is_digit(c),
{
    '0' <= c && c <= '9'
}

/// Reads an unsigned 32-bit decimal.
pub fn parse_decimal(s: &[char]) -> (r: Option<u32>)
    ensures
        r == parse_u32(s@),
{
    let start: usize = if s.len() > 0 && s[0] == '+' {
        1
    } else {
        0
    };
    let ghost d = unsigned_digits(s@);
    assert(d =~= s@.skip(start as int));
    if start == s.len() {
        return None;
    }
    let mut acc: u64 = 0;
    let mut i: usize = start;
    while i < s.len()
        invariant
            start <= i <= s.len(),
            d == s@.skip(start as int),
            d == unsigned_digits(s@),
            acc <= u32::MAX,
            acc == digits_value(d.take(i - start)),
            all_digits(d.take(i - start)),
        decreases s.len() - i,
    {
        let c = s[i];
        if !is_digit_char(c) {
            assert(d[i - start] == c);
            assert(!is_digit(d[i - start]));
            assert(!all_digits(d));
            return None;
        }
        let ghost prefix = d.take(i - start + 1);
        assert(prefix.drop_last() =~= d.take(i - start));
        assert(prefix.last() == c);
        let digit = (c as u32 - '0' as u32) as u64;
        acc = acc * 10 + digit;
        assert(acc == digits_value(prefix));
        i += 1;
        assert(all_digits(prefix));
        if acc > u32::MAX as u64 {
            proof {
                lemma_digits_grow(d, i - start);
                assert(d.take(i - start) == prefix);
            }
            return None;
        }
    }
    assert(d.take(i - start) =~= d);
    Some(acc as u32)
}

/// Reads a decimal time and truncates it to whole seconds.
pub fn parse_whole_seconds(s: &[char]) -> (r: Option<u32>)
    ensures
        r == parse_seconds(s@),
{
    let i = find_char(s, '.');
    if i == s.len() {
        return parse_decimal(s);
    }
    let mut j: usize = i + 1;
    while j < s.len()
        invariant
            i < j <= s.len(),
            i == first_index(s@, '.'),
            forall|k: int| i + 1 <= k < j ==> is_digit(s@[k]),
        decreases s.len() - j,
    {
        if !is_digit_char(s[j]) {
            assert(s@.skip(i + 1)[j - i - 1] == s@[j as int]);
            return None;
        }
        j += 1;
    }
    assert(all_digits(s@.skip(i + 1)));
    let mut int_part: Vec<char> = Vec::new();
    let mut k: usize = 0;
    while k < i
        invariant
            i < s.len(),
            k <= i,
            int_part@ == s@.take(k as int),
        decreases i - k,
    {
        int_part.push(s[k]);
        assert(int_part@ =~= s@.take(k + 1));
        k += 1;
    }
    parse_decimal(int_part.as_slice())
}

/// Which recognised key `k` is.
pub fn classify_key(k: &[char]) -> (r: MetadataKey)
    ensures
        r == key_of(k@),
{
    let memory = ['c', 'g', 'm', 'e', 'm'];
    let exit_code = ['e', 'x', 'i', 't', 'c', 'o', 'd', 'e'];
    let exit_signal = ['e', 'x', 'i', 't', 's', 'i', 'g'];
    let message = ['m', 'e', 's', 's', 'a', 'g', 'e'];
    let status = ['s', 't', 'a', 't', 'u', 's'];
    let cpu_time = ['t', 'i', 'm', 'e'];
    let wall_time = ['t', 'i', 'm', 'e', '-', 'w', 'a', 'l', 'l'];
    assert(memory@ =~= seq!['c', 'g', 'm', 'e', 'm']);
    assert(exit_code@ =~= seq!['e', 'x', 'i', 't', 'c', 'o', 'd', 'e']);
    assert(exit_signal@ =~= seq!['e', 'x', 'i', 't', 's', 'i', 'g']);
    assert(message@ =~= seq!['m', 'e', 's', 's', 'a', 'g', 'e']);
    assert(status@ =~= seq!['s', 't', 'a', 't', 'u', 's']);
    assert(cpu_time@ =~= seq!['t', 'i', 'm', 'e']);
    assert(wall_time@ =~= seq!['t', 'i', 'm', 'e', '-', 'w', 'a', 'l', 'l']);
    if same_chars(k, &memory) {
        MetadataKey::Memory
    } else if same_chars(k, &exit_code) {
        MetadataKey::ExitCode
    } else if same_chars(k, &exit_signal) {
        MetadataKey::ExitSignal
    } else if same_chars(k, &message) {
        MetadataKey::Message
    } else if same_chars(k, &status) {
        MetadataKey::Status
    } else if same_chars(k, &cpu_time) {
        MetadataKey::CpuTime
    } else if same_chars(k, &wall_time) {
        MetadataKey::WallTime
    } else {
        MetadataKey::Other
    }
}

impl Metadata {
    /// A report with no field present.
    pub fn new() -> (r: Metadata)
        ensures
            r@ == empty_model(),
    {
        Metadata {
            memory: None,
            exit_code: None,
            exit_signal: None,
            exit_message: None,
            exit_status: None,
            cpu_time: None,
            wall_time: None,
        }
    }

    /// Takes one line into the report; `false`, with the report unchanged, when it is malformed.
    pub fn apply_line(&mut self, line: &[char]) -> (ok: bool)
        ensures
            ok == apply_line(old(self)@, line@) is Some,
            ok ==> final(self)@ == apply_line(old(self)@, line@)->Some_0,
            !ok ==> final(self)@ == old(self)@,
    {
        let (k, v) = match split_metadata_line(line) {
            Some(kv) => kv,
            None => return false,
        };
        match classify_key(k.as_slice()) {
            MetadataKey::Memory => match parse_decimal(v.as_slice()) {
                Some(n) => self.memory = Some(n),
                None => return false,
            },
            MetadataKey::ExitCode => match parse_decimal(v.as_slice()) {
                Some(n) => self.exit_code = Some(n),
                None => return false,
            },
            MetadataKey::ExitSignal => match parse_decimal(v.as_slice()) {
                Some(n) => self.exit_signal = Some(n),
                None => return false,
            },
            MetadataKey::Message => self.exit_message = Some(text_of(v.as_slice())),
            MetadataKey::Status => self.exit_status = Some(text_of(v.as_slice())),
            MetadataKey::CpuTime => match parse_whole_seconds(v.as_slice()) {
                Some(n) => self.cpu_time = Some(n),
                None => return false,
            },
            MetadataKey::WallTime => match parse_whole_seconds(v.as_slice()) {
                Some(n) => self.wall_time = Some(n),
                None => return false,
            },
            MetadataKey::Other => {},
        }
        true
    }
}

/// Decodes a whole report: every line must be well formed, and no partial report is returned.
pub fn decode_metadata(text: &str) -> (r: Result<Metadata, MetadataParseError>)
    ensures
        match r {
            Ok(m) => decode_spec(text@) == Ok::<MetadataModel, nat>(m@),
            Err(e) => decode_spec(text@) == Err::<MetadataModel, nat>(e.line as nat),
        },
{
    let chars = chars_of(text);
    let mut meta = Metadata::new();
    let mut line: Vec<char> = Vec::new();
    let ghost mut done: Seq<Seq<char>> = Seq::empty();
    let mut n_done: usize = 0;
    let mut i: usize = 0;
    assert(chars@.take(0) =~= Seq::<char>::empty());
    assert(done.push(line@) =~= seq![Seq::<char>::empty()]);
    while i < chars.len()
        invariant
            i <= chars.len(),
            chars@ == text@,
            split_newlines(chars@.take(i as int)) == done.push(line@),
            decode_lines(done) == Ok::<MetadataModel, nat>(meta@),
            n_done == done.len(),
            n_done <= i,
        decreases chars.len() - i,
    {
        let c = chars[i];
        let ghost before = chars@.take(i as int);
        let ghost after = chars@.take(i + 1);
        assert(after.drop_last() =~= before);
        assert(after.last() == c);
        if c == '\n' {
            assert(split_newlines(after) == done.push(line@).push(Seq::empty()));
            let ok = meta.apply_line(line.as_slice());
            let ghost next = done.push(line@);
            assert(next.drop_last() =~= done);
            if !ok {
                proof {
                    lemma_split_prefix(text@, i + 1);
                    let ls = lines_of(text@);
                    assert(ls.take(next.len() as int) =~= next);
                    lemma_decode_prefix(ls, next.len() as int);
                }
                return Err(MetadataParseError { line: n_done });
            }
            proof {
                done = next;
            }
            n_done = n_done + 1;
            line = Vec::new();
        } else {
            let ghost p = done.push(line@);
            line.push(c);
            assert(split_newlines(after) =~= done.push(line@));
        }
        i += 1;
    }
    assert(chars@.take(i as int) =~= text@);
    if line.len() == 0 {
        assert(done.push(line@).drop_last() =~= done);
        Ok(meta)
    } else {
        let ghost all = done.push(line@);
        assert(all.drop_last() =~= done);
        if meta.apply_line(line.as_slice()) {
            Ok(meta)
        } else {
            Err(MetadataParseError { line: n_done })
        }
    }
}

} // verus!
