//! Keys and sticky key sets. A [`Key`] is a keycode together with the
//! modifier bits it was seen with. Full equality compares both fields and is
//! what deduplicates a [`KeySet`]; the `has` membership test compares the
//! keycode alone, so a key held while its modifiers change still counts as
//! the same held key.

use vstd::prelude::*;

use crate::keycodes::{has_text, key_text, Keycodes};

verus! {

/// A key event identity: the keycode and the modifier bits
/// (shift, ctrl, alt, meta — in that order) active when it was seen.
#[derive(Debug, Clone, Copy, PartialEq, Eq, Hash)]
pub struct Key {
    /// The modifiers: [shift, ctrl, alt, meta].
    pub modifier: [bool; 4],
    /// The keycode.
    pub key: Keycodes,
}

/// Full equality on keys: same keycode and the same modifier bits.
pub open spec fn key_eq_at(a: Key, b: Key) -> bool {
    a.key == b.key && a.modifier@ == b.modifier@
}

impl Key {
    /// A key with the given keycode and no modifier set.
    pub fn plain(key: Keycodes) -> (r: Key)
        ensures
            r.key == key,
            r.modifier@ =~= seq![false, false, false, false],
    {
        let r = Key { modifier: [false, false, false, false], key };
        proof {
            assert(r.modifier@ =~= seq![false, false, false, false]);
        }
        r
    }

    /// The key's text, or an empty string for a key that carries none.
    pub fn get_str(self) -> (r: String)
        ensures
            r@ == key_text(self.key),
    {
        match self.key {
            Keycodes::A => "a".to_owned(),
            Keycodes::B => "b".to_owned(),
            Keycodes::C => "c".to_owned(),
            Keycodes::D => "d".to_owned(),
            Keycodes::E => "e".to_owned(),
            Keycodes::F => "f".to_owned(),
            Keycodes::G => "g".to_owned(),
            Keycodes::H => "h".to_owned(),
            Keycodes::I => "i".to_owned(),
            Keycodes::J => "j".to_owned(),
            Keycodes::K => "k".to_owned(),
            Keycodes::L => "l".to_owned(),
            Keycodes::M => "m".to_owned(),
            Keycodes::N => "n".to_owned(),
            Keycodes::O => "o".to_owned(),
            Keycodes::P => "p".to_owned(),
            Keycodes::Q => "q".to_owned(),
            Keycodes::R => "r".to_owned(),
            Keycodes::S => "s".to_owned(),
            Keycodes::T => "t".to_owned(),
            Keycodes::U => "u".to_owned(),
            Keycodes::V => "v".to_owned(),
            Keycodes::W => "w".to_owned(),
            Keycodes::X => "x".to_owned(),
            Keycodes::Y => "y".to_owned(),
            Keycodes::Z => "z".to_owned(),
            Keycodes::Key1 | Keycodes::Numpad1 => "1".to_owned(),
            Keycodes::Key2 | Keycodes::Numpad2 => "2".to_owned(),
            Keycodes::Key3 | Keycodes::Numpad3 => "3".to_owned(),
            Keycodes::Key4 | Keycodes::Numpad4 => "4".to_owned(),
            Keycodes::Key5 | Keycodes::Numpad5 => "5".to_owned(),
            Keycodes::Key6 | Keycodes::Numpad6 => "6".to_owned(),
            Keycodes::Key7 | Keycodes::Numpad7 => "7".to_owned(),
            Keycodes::Key8 | Keycodes::Numpad8 => "8".to_owned(),
            Keycodes::Key9 | Keycodes::Numpad9 => "9".to_owned(),
            Keycodes::Key0 | Keycodes::Numpad0 => "0".to_owned(),
            Keycodes::Space => " ".to_owned(),
            _ => "".to_owned(),
        }
    }

    /// The key's text if it has one, `None` otherwise.
    pub fn get_str_option(self) -> (r: Option<String>)
        ensures
            match r {
                Some(s) => has_text(self.key) && s@ == key_text(self.key),
                None => !has_text(self.key),
            },
    {
        proof {
            crate::keycodes::lemma_has_text_is_nonempty_text(self.key);
        }
        let s = self.get_str();
        if !s.as_str().is_empty() {
            Some(s)
        } else {
            None
        }
    }
}

/// Exact equality of two keys: the keycode and every modifier bit agree.
pub fn key_eq(a: &Key, b: &Key) -> (r: bool)
    ensures
        r == key_eq_at(*a, *b),
{
    let r = a.key == b.key && a.modifier[0] == b.modifier[0] && a.modifier[1] == b.modifier[1]
        && a.modifier[2] == b.modifier[2] && a.modifier[3] == b.modifier[3];
    proof {
        if r {
            assert(a.modifier@ =~= b.modifier@);
        }
    }
    r
}

/// A sticky set of keys. Membership persists across ticks until the reset
/// step clears it; elements are deduplicated by full key equality, while
/// [`KeySet::has`] tests membership by keycode alone.
#[derive(Debug)]
pub struct KeySet {
    /// The keys in the set, no two of them fully equal.
    pub keys: Vec<Key>,
}

impl View for KeySet {
    type V = Seq<Key>;

    open spec fn view(&self) -> Seq<Key> {
        self.keys@
    }
}

impl KeySet {
    /// No element occurs twice, up to full key equality.
    pub open spec fn distinct(self) -> bool {
        forall|i: int, j: int| #![trigger self@[i], self@[j]]
            0 <= i < j < self@.len() ==> !key_eq_at(self@[i], self@[j])
    }

    /// The set holds a key fully equal to `k`.
    pub open spec fn contains_key(self, k: Key) -> bool {
        exists|i: int| 0 <= i < self@.len() && key_eq_at(self@[i], k)
    }

    /// The set holds some key with keycode `c`, whatever its modifiers.
    pub open spec fn has_code(self, c: Keycodes) -> bool {
        exists|i: int| 0 <= i < self@.len() && self@[i].key == c
    }

    /// An empty key set.
    pub fn new() -> (r: KeySet)
        ensures
            r@.len() == 0,
            r.distinct(),
    {
        KeySet { keys: Vec::new() }
    }

    /// How many keys the set holds.
    pub fn len(&self) -> (n: usize)
        ensures
            n == self@.len(),
    {
        self.keys.len()
    }

    /// Membership by keycode alone: true if some key in the set has this
    /// keycode, whatever modifiers it was seen with.
    pub fn has(&self, code: Keycodes) -> (r: bool)
        ensures
            r == self.has_code(code),
    {
        let mut i: usize = 0;
        while i < self.keys.len()
            invariant
                i <= self.keys.len(),
                forall|j: int| 0 <= j < i ==> self@[j].key != code,
            decreases self.keys.len() - i,
        {
            if self.keys[i].key == code {
                return true;
            }
            i = i + 1;
        }
        false
    }

    /// Membership by full equality: keycode and modifiers.
    pub fn contains(&self, k: &Key) -> (r: bool)
        ensures
            r == self.contains_key(*k),
    {
        let mut i: usize = 0;
        while i < self.keys.len()
            invariant
                i <= self.keys.len(),
                forall|j: int| 0 <= j < i ==> !key_eq_at(self@[j], *k),
            decreases self.keys.len() - i,
        {
            if key_eq(&self.keys[i], k) {
                proof {
                    assert(key_eq_at(self@[i as int], *k));
                }
                return true;
            }
            i = i + 1;
        }
        false
    }

    /// Insert a key unless a fully equal one is already present.
    pub fn insert(&mut self, k: Key)
        requires
            old(self).distinct(),
        ensures
            final(self).distinct(),
            old(self).contains_key(k) ==> final(self)@ == old(self)@,
            !old(self).contains_key(k) ==> final(self)@ == old(self)@.push(k),
            final(self).contains_key(k),
            forall|x: Key| #![all_triggers]
                final(self).contains_key(x) == (old(self).contains_key(x) || key_eq_at(x, k)),
            forall|c: Keycodes| #![all_triggers]
                final(self).has_code(c) == (old(self).has_code(c) || c == k.key),
    {
        if !self.contains(&k) {
            self.keys.push(k);
            proof {
                assert(self@[self@.len() - 1] == k);
                assert(key_eq_at(self@[self@.len() - 1], k));
                assert forall|x: Key|
                    self.contains_key(x) == (old(self).contains_key(x) || key_eq_at(x, k)) by {
                    if self.contains_key(x) {
                        let i = choose|i: int| 0 <= i < self@.len() && key_eq_at(self@[i], x);
                        if i < self@.len() - 1 {
                            assert(old(self)@[i] == self@[i]);
                            assert(old(self).contains_key(x));
                        } else {
                            assert(key_eq_at(x, k));
                        }
                    }
                    if old(self).contains_key(x) {
                        let i = choose|i: int|
                            0 <= i < old(self)@.len() && key_eq_at(old(self)@[i], x);
                        assert(key_eq_at(self@[i], x));
                    }
                }
                assert forall|c: Keycodes|
                    self.has_code(c) == (old(self).has_code(c) || c == k.key) by {
                    if self.has_code(c) {
                        let i = choose|i: int| 0 <= i < self@.len() && self@[i].key == c;
                        if i < self@.len() - 1 {
                            assert(old(self)@[i] == self@[i]);
                        }
                    }
                    if old(self).has_code(c) {
                        let i = choose|i: int| 0 <= i < old(self)@.len() && old(self)@[i].key == c;
                        assert(self@[i].key == c);
                    }
                }
            }
        } else {
            proof {
                let i = choose|i: int| 0 <= i < self@.len() && key_eq_at(self@[i], k);
                assert forall|x: Key|
                    self.contains_key(x) == (old(self).contains_key(x) || key_eq_at(x, k)) by {
                    if key_eq_at(x, k) {
                        assert(key_eq_at(self@[i], x));
                    }
                }
                assert forall|c: Keycodes|
                    self.has_code(c) == (old(self).has_code(c) || c == k.key) by {
                    if c == k.key {
                        assert(self@[i].key == c);
                    }
                }
            }
        }
    }

    /// Remove the key fully equal to `k`, if the set holds one.
    pub fn remove(&mut self, k: &Key)
        requires
            old(self).distinct(),
        ensures
            final(self).distinct(),
            !final(self).contains_key(*k),
            forall|x: Key| #![all_triggers]
                final(self).contains_key(x) == (old(self).contains_key(x) && !key_eq_at(x, *k)),
            forall|c: Keycodes| #![all_triggers]
                old(self).has_code(c) && c != k.key ==> final(self).has_code(c),
            forall|c: Keycodes| #![all_triggers] final(self).has_code(c) ==> old(self).has_code(c),
            old(self).contains_key(*k) ==> final(self)@.len() == old(self)@.len() - 1,
            !old(self).contains_key(*k) ==> final(self)@ == old(self)@,
    {
        let mut i: usize = 0;
        while i < self.keys.len()
            invariant
                self == old(self),
                old(self).distinct(),
                i <= self.keys.len(),
                forall|j: int| 0 <= j < i ==> !key_eq_at(self@[j], *k),
            decreases self.keys.len() - i,
        {
            if key_eq(&self.keys[i], k) {
                self.keys.remove(i);
                proof {
                    let pre = old(self)@;
                    let post = self@;
                    let ii = i as int;
                    assert(key_eq_at(pre[ii], *k));
                    assert forall|j: int| 0 <= j < post.len() implies post[j] == (if j < ii {
                        pre[j]
                    } else {
                        pre[j + 1]
                    }) by {}
                    assert forall|a: int, b: int| #![trigger post[a], post[b]]
                        0 <= a < b < post.len() implies !key_eq_at(post[a], post[b]) by {
                        let pa: int = if a < ii {
                            a
                        } else {
                            a + 1
                        };
                        let pb: int = if b < ii {
                            b
                        } else {
                            b + 1
                        };
                        assert(post[a] == pre[pa]);
                        assert(post[b] == pre[pb]);
                        assert(0 <= pa < pb < pre.len());
                        assert(old(self)@[pa] == pre[pa] && old(self)@[pb] == pre[pb]);
                        assert(!key_eq_at(old(self)@[pa], old(self)@[pb]));
                    }
                    assert forall|x: Key|
                        self.contains_key(x) == (old(self).contains_key(x) && !key_eq_at(
                            x,
                            *k,
                        )) by {
                        if self.contains_key(x) {
                            let j = choose|j: int| 0 <= j < post.len() && key_eq_at(post[j], x);
                            let pj: int = if j < ii {
                                j
                            } else {
                                j + 1
                            };
                            assert(key_eq_at(pre[pj], x));
                            assert(old(self).contains_key(x));
                            // x cannot be the removed key: its witness would be
                            // a second element fully equal to the removed one.
                            if key_eq_at(x, *k) {
                                assert(key_eq_at(pre[pj], pre[ii]) && key_eq_at(
                                    pre[ii],
                                    pre[pj],
                                ));
                                assert(old(self)@[pj] == pre[pj] && old(self)@[ii] == pre[ii]);
                                if pj < ii {
                                    assert(!key_eq_at(old(self)@[pj], old(self)@[ii]));
                                } else {
                                    assert(pj > ii);
                                    assert(!key_eq_at(old(self)@[ii], old(self)@[pj]));
                                }
                                assert(false);
                            }
                        }
                        if old(self).contains_key(x) && !key_eq_at(x, *k) {
                            let j = choose|j: int| 0 <= j < pre.len() && key_eq_at(pre[j], x);
                            if j < ii {
                                assert(key_eq_at(post[j], x));
                                assert(self.contains_key(x));
                            } else if j == ii {
                                assert(key_eq_at(pre[ii], x));
                                assert(false);
                            } else {
                                assert(key_eq_at(post[j - 1], x));
                                assert(self.contains_key(x));
                            }
                        }
                    }
                    assert forall|c: Keycodes|
                        old(self).has_code(c) && c != k.key implies self.has_code(c) by {
                        let j = choose|j: int| 0 <= j < pre.len() && pre[j].key == c;
                        if j < ii {
                            assert(post[j].key == c);
                        } else if j == ii {
                            assert(false);
                        } else {
                            assert(post[j - 1].key == c);
                        }
                    }
                    assert forall|c: Keycodes| self.has_code(c) implies old(self).has_code(
                        c,
                    ) by {
                        let j = choose|j: int| 0 <= j < post.len() && post[j].key == c;
                        if j < ii {
                            assert(pre[j].key == c);
                        } else {
                            assert(pre[j + 1].key == c);
                        }
                    }
                    assert(!self.contains_key(*k));
                }
                return ;
            }
            i = i + 1;
        }
    }

    /// Empty the set.
    pub fn clear(&mut self)
        ensures
            final(self)@.len() == 0,
            final(self).distinct(),
    {
        self.keys.clear();
    }

    /// Insert every key of `other` into this set.
    pub fn insert_all(&mut self, other: &KeySet)
        requires
            old(self).distinct(),
        ensures
            final(self).distinct(),
            forall|x: Key| #![all_triggers]
                final(self).contains_key(x) == (old(self).contains_key(x) || other.contains_key(
                    x,
                )),
            forall|c: Keycodes| #![all_triggers]
                final(self).has_code(c) == (old(self).has_code(c) || other.has_code(c)),
    {
        let mut i: usize = 0;
        while i < other.keys.len()
            invariant
                i <= other.keys.len(),
                self.distinct(),
                forall|x: Key|
                    self.contains_key(x) == (old(self).contains_key(x) || exists|j: int|
                        0 <= j < i && key_eq_at(other@[j], x)),
                forall|c: Keycodes|
                    self.has_code(c) == (old(self).has_code(c) || exists|j: int|
                        0 <= j < i && other@[j].key == c),
            decreases other.keys.len() - i,
        {
            self.insert(other.keys[i]);
            i = i + 1;
        }
        proof {
            assert forall|x: Key|
                self.contains_key(x) == (old(self).contains_key(x) || other.contains_key(x)) by {
                if other.contains_key(x) {
                    let j = choose|j: int| 0 <= j < other@.len() && key_eq_at(other@[j], x);
                    assert(0 <= j < i && key_eq_at(other@[j], x));
                }
            }
            assert forall|c: Keycodes|
                self.has_code(c) == (old(self).has_code(c) || other.has_code(c)) by {
                if other.has_code(c) {
                    let j = choose|j: int| 0 <= j < other@.len() && other@[j].key == c;
                    assert(0 <= j < i && other@[j].key == c);
                }
            }
        }
    }

    /// The distinct keycodes present in the set, in first-seen order.
    pub fn codes(&self) -> (r: Vec<Keycodes>)
        ensures
            forall|c: Keycodes| #![all_triggers] r@.contains(c) == self.has_code(c),
            forall|i: int, j: int| 0 <= i < j < r@.len() ==> r@[i] != r@[j],
    {
        let mut r: Vec<Keycodes> = Vec::new();
        let mut i: usize = 0;
        while i < self.keys.len()
            invariant
                i <= self.keys.len(),
                forall|c: Keycodes| r@.contains(c) == (exists|j: int|
                    0 <= j < i && self@[j].key == c),
                forall|a: int, b: int| 0 <= a < b < r@.len() ==> r@[a] != r@[b],
            decreases self.keys.len() - i,
        {
            let c = self.keys[i].key;
            let mut seen = false;
            let mut j: usize = 0;
            while j < r.len()
                invariant
                    j <= r.len(),
                    seen == (exists|a: int| 0 <= a < j && r@[a] == c),
                decreases r.len() - j,
            {
                if r[j] == c {
                    seen = true;
                }
                j = j + 1;
            }
            proof {
                assert(seen == r@.contains(c));
            }
            if !seen {
                let ghost pre = r@;
                r.push(c);
                proof {
                    assert(r@ == pre.push(c));
                    assert(r@[r@.len() - 1] == c);
                    assert forall|cc: Keycodes|
                        r@.contains(cc) == (exists|jj: int|
                            0 <= jj < i + 1 && self@[jj].key == cc) by {
                        if r@.contains(cc) {
                            let a = choose|a: int| 0 <= a < r@.len() && r@[a] == cc;
                            if a < r@.len() - 1 {
                                assert(pre[a] == cc);
                                assert(pre.contains(cc));
                                let jj = choose|jj: int| 0 <= jj < i && self@[jj].key == cc;
                                assert(0 <= jj < i + 1 && self@[jj].key == cc);
                            } else {
                                assert(cc == c);
                                assert(0 <= i < i + 1 && self@[i as int].key == cc);
                            }
                        }
                        if exists|jj: int| 0 <= jj < i + 1 && self@[jj].key == cc {
                            let jj = choose|jj: int| 0 <= jj < i + 1 && self@[jj].key == cc;
                            if jj < i {
                                assert(pre.contains(cc));
                                let a = choose|a: int| 0 <= a < pre.len() && pre[a] == cc;
                                assert(r@[a] == cc);
                                assert(r@.contains(cc));
                            } else {
                                assert(cc == c);
                                assert(r@.contains(cc));
                            }
                        }
                    }
                    assert forall|a: int, b: int|
                        0 <= a < b < r@.len() implies r@[a] != r@[b] by {
                        if b == r@.len() - 1 {
                            assert(pre[a] == r@[a]);
                            if r@[a] == c {
                                assert(pre.contains(c));
                            }
                        }
                    }
                }
            } else {
                proof {
                    assert(r@.contains(c));
                    assert forall|cc: Keycodes|
                        r@.contains(cc) == (exists|jj: int|
                            0 <= jj < i + 1 && self@[jj].key == cc) by {
                        if r@.contains(cc) {
                            let jj = choose|jj: int| 0 <= jj < i && self@[jj].key == cc;
                            assert(0 <= jj < i + 1 && self@[jj].key == cc);
                        }
                        if exists|jj: int| 0 <= jj < i + 1 && self@[jj].key == cc {
                            let jj = choose|jj: int| 0 <= jj < i + 1 && self@[jj].key == cc;
                            if jj == i {
                                assert(cc == c);
                            } else {
                                assert(0 <= jj < i && self@[jj].key == cc);
                            }
                        }
                    }
                }
            }
            i = i + 1;
        }
        r
    }
}

} // verus!
