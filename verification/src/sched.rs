//! Scheduler decisions: which button a typed key toggles, and how
//! wall-clock time is converted into logical steps and tick batches.
//!
//! The real-time loop itself polls input, sleeps and talks to the
//! terminal; everything it decides — key matching and fixed-timestep
//! pacing — is computed here from plain values.

use vstd::prelude::*;

use crate::engine::Button;

verus! {

/// The configured key for each of the three face buttons, stored
/// lowercase.
#[derive(Debug, Clone, Copy, PartialEq, Eq, Structural)]
pub struct Keybind {
    pub left: char,
    pub middle: char,
    pub right: char,
}

impl Default for Keybind {
    /// The default bindings: `z`, `x`, `c` for Left, Middle, Right.
    fn default() -> (r: Keybind)
        ensures
            r == (Keybind { left: 'z', middle: 'x', right: 'c' }),
    {
        Keybind { left: 'z', middle: 'x', right: 'c' }
    }
}

/// An ASCII uppercase letter folded to lowercase; any other character
/// unchanged.
pub open spec fn ascii_lower_spec(c: char) -> char {
    if 65 <= c as u32 && c as u32 <= 90 {
        (c as u32 + 32) as char
    } else {
        c
    }
}

/// Folds an ASCII uppercase letter to lowercase, leaving every other
/// character unchanged.
pub fn ascii_lower(c: char) -> (r: char)
    ensures
        r == ascii_lower_spec(c),
{
    let u = c as u32;
    if 65 <= u && u <= 90 {
        ((u + 32) as u8) as char
    } else {
        c
    }
}

/// The button a typed character toggles: the first binding — Left,
/// then Middle, then Right — whose configured key equals the
/// character folded to lowercase, or none at all.
pub open spec fn key_action_spec(kb: Keybind, ch: char) -> Option<Button> {
    let low = ascii_lower_spec(ch);
    if low == kb.left {
        Some(Button::Left)
    } else if low == kb.middle {
        Some(Button::Middle)
    } else if low == kb.right {
        Some(Button::Right)
    } else {
        None
    }
}

/// Decides what a typed character does: case-insensitive match
/// against the configured bindings, Left before Middle before Right;
/// a character that matches no binding toggles nothing.
pub fn key_action(kb: &Keybind, ch: char) -> (r: Option<Button>)
    ensures
        r == key_action_spec(*kb, ch),
{
    let low = ascii_lower(ch);
    if low == kb.left {
        Some(Button::Left)
    } else if low == kb.middle {
        Some(Button::Middle)
    } else if low == kb.right {
        Some(Button::Right)
    } else {
        None
    }
}

/// A separator between keybind assignments: the comma or the space.
pub open spec fn is_keybind_sep(c: char) -> bool {
    c == ',' || c == ' '
}

/// A whitespace character by Unicode's White_Space property: the set
/// that trimming a key or value removes.
pub open spec fn is_ws_char(c: char) -> bool {
    let u = c as u32;
    (9 <= u && u <= 13) || u == 32 || u == 0x85 || u == 0xA0 || u == 0x1680 || (0x2000 <= u && u
        <= 0x200A) || u == 0x2028 || u == 0x2029 || u == 0x202F || u == 0x205F || u == 0x3000
}

/// An ASCII lowercase letter folded to uppercase; any other character
/// unchanged.
pub open spec fn ascii_upper_spec(c: char) -> char {
    if 97 <= c as u32 && c as u32 <= 122 {
        (c as u32 - 32) as char
    } else {
        c
    }
}

/// Index of the first separator in `s`, or its length when none.
pub open spec fn sep_pos(s: Seq<char>) -> nat
    decreases s.len(),
{
    if s.len() == 0 {
        0
    } else if is_keybind_sep(s[0]) {
        0
    } else {
        (1 + sep_pos(s.skip(1))) as nat
    }
}

/// Index of the first `=` in `s`, or its length when none.
pub open spec fn eq_pos(s: Seq<char>) -> nat
    decreases s.len(),
{
    if s.len() == 0 {
        0
    } else if s[0] == '=' {
        0
    } else {
        (1 + eq_pos(s.skip(1))) as nat
    }
}

/// `s` without its leading whitespace.
pub open spec fn trim_front(s: Seq<char>) -> Seq<char>
    decreases s.len(),
{
    if s.len() > 0 && is_ws_char(s[0]) {
        trim_front(s.skip(1))
    } else {
        s
    }
}

/// `s` without its trailing whitespace.
pub open spec fn trim_back(s: Seq<char>) -> Seq<char>
    decreases s.len(),
{
    if s.len() > 0 && is_ws_char(s[s.len() - 1]) {
        trim_back(s.take(s.len() - 1))
    } else {
        s
    }
}

/// `s` without leading and trailing whitespace, as trimming a string
/// slice gives it.
pub open spec fn trim_chars(s: Seq<char>) -> Seq<char> {
    trim_back(trim_front(s))
}

/// One `K=V` assignment applied to a keybind: the trimmed key, folded
/// to uppercase, picks the button (`A` Left, `B` Middle, `C` Right);
/// the first character of the trimmed value, folded to lowercase,
/// becomes its binding. A part without `=`, with an empty value or
/// with an unknown key changes nothing.
pub open spec fn keybind_update(kb: Keybind, part: Seq<char>) -> Keybind {
    let e = eq_pos(part);
    if e >= part.len() {
        kb
    } else {
        let k = trim_chars(part.take(e as int));
        let v = trim_chars(part.skip(e as int + 1));
        if v.len() == 0 {
            kb
        } else {
            let ch = ascii_lower_spec(v[0]);
            if k.len() == 1 && ascii_upper_spec(k[0]) == 'A' {
                Keybind { left: ch, ..kb }
            } else if k.len() == 1 && ascii_upper_spec(k[0]) == 'B' {
                Keybind { middle: ch, ..kb }
            } else if k.len() == 1 && ascii_upper_spec(k[0]) == 'C' {
                Keybind { right: ch, ..kb }
            } else {
                kb
            }
        }
    }
}

/// A whole keybind argument value applied to a keybind: assignments
/// separated by commas or spaces, applied left to right.
pub open spec fn keybind_of(kb: Keybind, s: Seq<char>) -> Keybind
    decreases s.len(),
{
    let j = sep_pos(s);
    let kb1 = keybind_update(kb, s.take(j as int));
    if j >= s.len() {
        kb1
    } else {
        keybind_of(kb1, s.skip(j as int + 1))
    }
}

proof fn lemma_sep_pos_from_scan(s: Seq<char>, j: int)
    requires
        0 <= j <= s.len(),
        forall|i: int| 0 <= i < j ==> !is_keybind_sep(s[i]),
        j < s.len() ==> is_keybind_sep(s[j]),
    ensures
        sep_pos(s) == j,
    decreases j,
{
    if j > 0 {
        lemma_sep_pos_from_scan(s.skip(1), j - 1);
    }
}

proof fn lemma_eq_pos_from_scan(s: Seq<char>, j: int)
    requires
        0 <= j <= s.len(),
        forall|i: int| 0 <= i < j ==> s[i] != '=',
        j < s.len() ==> s[j] == '=',
    ensures
        eq_pos(s) == j,
    decreases j,
{
    if j > 0 {
        lemma_eq_pos_from_scan(s.skip(1), j - 1);
    }
}

proof fn lemma_trim_front_skip(s: Seq<char>, m: int)
    requires
        0 <= m <= s.len(),
        forall|i: int| 0 <= i < m ==> is_ws_char(s[i]),
        m < s.len() ==> !is_ws_char(s[m]),
    ensures
        trim_front(s) == s.skip(m),
    decreases m,
{
    if m == 0 {
        assert(s.skip(0) =~= s);
    } else {
        lemma_trim_front_skip(s.skip(1), m - 1);
        assert(s.skip(1).skip(m - 1) =~= s.skip(m));
    }
}

proof fn lemma_trim_back_take(s: Seq<char>, h: int)
    requires
        0 <= h <= s.len(),
        forall|i: int| h <= i < s.len() ==> is_ws_char(s[i]),
        h > 0 ==> !is_ws_char(s[h - 1]),
    ensures
        trim_back(s) == s.take(h),
    decreases s.len(),
{
    if h == s.len() {
        assert(s.take(h) =~= s);
    } else {
        assert(is_ws_char(s[s.len() - 1]));
        lemma_trim_back_take(s.take(s.len() - 1), h);
        assert(s.take(s.len() - 1).take(h) =~= s.take(h));
    }
}

proof fn lemma_trim_back_keeps_head(s: Seq<char>)
    requires
        s.len() > 0,
        !is_ws_char(s[0]),
    ensures
        trim_back(s).len() >= 1,
        trim_back(s)[0] == s[0],
    decreases s.len(),
{
    if is_ws_char(s[s.len() - 1]) {
        lemma_trim_back_keeps_head(s.take(s.len() - 1));
    }
}

fn keybind_sep(c: char) -> (r: bool)
    ensures
        r == is_keybind_sep(c),
{
    c == ',' || c == ' '
}

fn ws_char(c: char) -> (r: bool)
    ensures
        r == is_ws_char(c),
{
    let u = c as u32;
    (9 <= u && u <= 13) || u == 32 || u == 0x85 || u == 0xA0 || u == 0x1680 || (0x2000 <= u && u
        <= 0x200A) || u == 0x2028 || u == 0x2029 || u == 0x202F || u == 0x205F || u == 0x3000
}

/// Folds an ASCII lowercase letter to uppercase, leaving every other
/// character unchanged.
pub fn ascii_upper(c: char) -> (r: char)
    ensures
        r == ascii_upper_spec(c),
{
    let u = c as u32;
    if 97 <= u && u <= 122 {
        ((u - 32) as u8) as char
    } else {
        c
    }
}

fn apply_part(kb: Keybind, chars: &Vec<char>, start: usize, end: usize) -> (r: Keybind)
    requires
        start <= end <= chars@.len(),
    ensures
        r == keybind_update(kb, chars@.subrange(start as int, end as int)),
{
    let ghost part = chars@.subrange(start as int, end as int);

    let mut e = start;
    while e < end && chars[e] != '='
        invariant
            start <= e <= end,
            end <= chars@.len(),
            forall|i: int| start <= i < e ==> chars@[i] != '=',
        decreases end - e,
    {
        e = e + 1;
    }
    proof {
        lemma_eq_pos_from_scan(part, e - start);
    }
    if e == end {
        return kb;
    }

    // Trim the key, chars[start..e].
    let mut klo = start;
    while klo < e && ws_char(chars[klo])
        invariant
            start <= klo <= e,
            e < chars@.len(),
            forall|i: int| start <= i < klo ==> is_ws_char(chars@[i]),
        decreases e - klo,
    {
        klo = klo + 1;
    }
    let mut khi = e;
    while khi > klo && ws_char(chars[khi - 1])
        invariant
            klo <= khi <= e,
            e < chars@.len(),
            forall|i: int| khi <= i < e ==> is_ws_char(chars@[i]),
        decreases khi,
    {
        khi = khi - 1;
    }
    proof {
        assert(part.take(e - start) =~= chars@.subrange(start as int, e as int));
        lemma_trim_front_skip(chars@.subrange(start as int, e as int), klo - start);
        assert(chars@.subrange(start as int, e as int).skip(klo - start) =~= chars@.subrange(
            klo as int,
            e as int,
        ));
        lemma_trim_back_take(chars@.subrange(klo as int, e as int), khi - klo);
        assert(chars@.subrange(klo as int, e as int).take(khi - klo) =~= chars@.subrange(
            klo as int,
            khi as int,
        ));
        assert(trim_chars(part.take(e - start)) == chars@.subrange(klo as int, khi as int));
    }

    // Trim the front of the value, chars[e+1..end); only its first
    // character matters.
    let mut vlo = e + 1;
    while vlo < end && ws_char(chars[vlo])
        invariant
            e + 1 <= vlo <= end,
            end <= chars@.len(),
            forall|i: int| e + 1 <= i < vlo ==> is_ws_char(chars@[i]),
        decreases end - vlo,
    {
        vlo = vlo + 1;
    }
    proof {
        assert(part.skip(e - start + 1) =~= chars@.subrange(e as int + 1, end as int));
        lemma_trim_front_skip(chars@.subrange(e as int + 1, end as int), vlo - (e + 1));
        assert(chars@.subrange(e as int + 1, end as int).skip(vlo - (e + 1)) =~= chars@.subrange(
            vlo as int,
            end as int,
        ));
    }
    if vlo == end {
        proof {
            assert(chars@.subrange(vlo as int, end as int) =~= Seq::<char>::empty());
            assert(trim_back(Seq::<char>::empty()) =~= Seq::<char>::empty());
        }
        return kb;
    }
    let ch = ascii_lower(chars[vlo]);
    proof {
        lemma_trim_back_keeps_head(chars@.subrange(vlo as int, end as int));
    }

    if khi - klo == 1 {
        let kc = ascii_upper(chars[klo]);
        if kc == 'A' {
            return Keybind { left: ch, middle: kb.middle, right: kb.right };
        }
        if kc == 'B' {
            return Keybind { left: kb.left, middle: ch, right: kb.right };
        }
        if kc == 'C' {
            return Keybind { left: kb.left, middle: kb.middle, right: ch };
        }
    }
    kb
}

/// Applies a keybind argument value, handed in as its characters, to
/// an existing keybind: assignments separated by commas or spaces,
/// each read as [`keybind_update`] describes, applied left to right.
pub fn parse_keybind(kb: Keybind, chars: &Vec<char>) -> (r: Keybind)
    ensures
        r == keybind_of(kb, chars@),
{
    let n = chars.len();
    let mut cur = kb;
    let mut start: usize = 0;
    proof {
        assert(chars@.skip(0) =~= chars@);
    }
    loop
        invariant
            n == chars@.len(),
            start <= n,
            keybind_of(kb, chars@) == keybind_of(cur, chars@.skip(start as int)),
        decreases n - start,
    {
        let ghost kb_in = cur;
        let mut j = start;
        while j < n && !keybind_sep(chars[j])
            invariant
                start <= j <= n,
                n == chars@.len(),
                forall|i: int| start <= i < j ==> !is_keybind_sep(chars@[i]),
            decreases n - j,
        {
            j = j + 1;
        }
        proof {
            lemma_sep_pos_from_scan(chars@.skip(start as int), j - start);
            assert(chars@.skip(start as int).take(j - start) =~= chars@.subrange(
                start as int,
                j as int,
            ));
        }
        cur = apply_part(cur, chars, start, j);
        proof {
            let s_rest = chars@.skip(start as int);
            assert(sep_pos(s_rest) == j - start);
            assert(s_rest.take(sep_pos(s_rest) as int) == chars@.subrange(start as int, j as int));
            assert(cur == keybind_update(kb_in, s_rest.take(sep_pos(s_rest) as int)));
        }
        if j == n {
            proof {
                assert(keybind_of(kb_in, chars@.skip(start as int)) == cur);
            }
            return cur;
        }
        proof {
            assert(chars@.skip(start as int).skip(j - start + 1) =~= chars@.skip(j as int + 1));
            assert(keybind_of(kb_in, chars@.skip(start as int)) == keybind_of(
                cur,
                chars@.skip(j as int + 1),
            ));
        }
        start = j + 1;
    }
}

/// The fixed-timestep pacer: an accumulator of unconsumed real time
/// that is drained one logical step (`step_us` microseconds) at a
/// time, decoupling emulated throughput from host frame-rate jitter.
/// Each drained step is worth `logic_batch` engine ticks; one extra
/// `frame_batch` of ticks runs every loop iteration regardless, so
/// visual feedback stays responsive at low configured speed.
pub struct Pacer {
    accumulator_us: u64,
    step_us: u64,
    logic_batch: usize,
    frame_batch: usize,
}

impl Pacer {
    /// Microseconds of real time not yet consumed by logical steps.
    pub closed spec fn accumulator_us(&self) -> u64 {
        self.accumulator_us
    }

    /// The length of one logical step in microseconds.
    pub closed spec fn step_us(&self) -> u64 {
        self.step_us
    }

    /// Engine ticks per drained logical step.
    pub closed spec fn logic_batch(&self) -> usize {
        self.logic_batch
    }

    /// Engine ticks per loop iteration, frame-rate-driven.
    pub closed spec fn frame_batch(&self) -> usize {
        self.frame_batch
    }

    /// Well formed: steps have positive length and batches are never
    /// empty.
    pub open spec fn wf(&self) -> bool {
        &&& self.step_us() >= 1
        &&& self.logic_batch() >= 1
        &&& self.frame_batch() >= 1
    }

    /// A pacer with an empty accumulator. A zero step length or batch
    /// size is lifted to one, so every drained step performs at least
    /// one tick.
    pub fn new(step_us: u64, logic_batch: usize, frame_batch: usize) -> (r: Pacer)
        ensures
            r.wf(),
            r.accumulator_us() == 0,
            r.step_us() == if step_us == 0 {
                1u64
            } else {
                step_us
            },
            r.logic_batch() == if logic_batch == 0 {
                1usize
            } else {
                logic_batch
            },
            r.frame_batch() == if frame_batch == 0 {
                1usize
            } else {
                frame_batch
            },
    {
        Pacer {
            accumulator_us: 0,
            step_us: if step_us == 0 {
                1
            } else {
                step_us
            },
            logic_batch: if logic_batch == 0 {
                1
            } else {
                logic_batch
            },
            frame_batch: if frame_batch == 0 {
                1
            } else {
                frame_batch
            },
        }
    }

    /// Adds newly elapsed real time to the accumulator, saturating at
    /// the maximum representable value rather than overflowing.
    pub fn add_elapsed(&mut self, delta_us: u64)
        ensures
            final(self).accumulator_us() == if old(self).accumulator_us() + delta_us > u64::MAX {
                u64::MAX as int
            } else {
                old(self).accumulator_us() + delta_us
            },
            final(self).step_us() == old(self).step_us(),
            final(self).logic_batch() == old(self).logic_batch(),
            final(self).frame_batch() == old(self).frame_batch(),
    {
        if delta_us > u64::MAX - self.accumulator_us {
            self.accumulator_us = u64::MAX;
        } else {
            self.accumulator_us = self.accumulator_us + delta_us;
        }
    }

    /// Whether at least one logical step's worth of time is pending.
    pub fn step_pending(&self) -> (r: bool)
        ensures
            r == (self.accumulator_us() >= self.step_us()),
    {
        self.accumulator_us >= self.step_us
    }

    /// Drains exactly one logical step from the accumulator and
    /// reports the tick batch the engine owes for it.
    pub fn consume_step(&mut self) -> (ticks: usize)
        requires
            old(self).accumulator_us() >= old(self).step_us(),
        ensures
            final(self).accumulator_us() == old(self).accumulator_us() - old(self).step_us(),
            final(self).step_us() == old(self).step_us(),
            final(self).logic_batch() == old(self).logic_batch(),
            final(self).frame_batch() == old(self).frame_batch(),
            ticks == old(self).logic_batch(),
    {
        self.accumulator_us = self.accumulator_us - self.step_us;
        self.logic_batch
    }

    /// The fixed-size tick batch performed once per loop iteration,
    /// independent of the timestep draining.
    pub fn frame_ticks(&self) -> (ticks: usize)
        ensures
            ticks == self.frame_batch(),
    {
        self.frame_batch
    }
}

} // verus!
