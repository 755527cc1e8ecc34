use vstd::prelude::*;

verus! {

/// `s` after appending `v` to a history that keeps at most `cap` entries:
/// when `s` is full, its oldest entry is dropped.
pub open spec fn pushed<T>(s: Seq<T>, v: T, cap: nat) -> Seq<T> {
    if s.len() < cap {
        s.push(v)
    } else {
        s.drop_first().push(v)
    }
}

/// Pushing onto a full history keeps its length at the capacity: the oldest
/// entry leaves, the others move one place toward the front, and the new
/// entry comes last.
pub proof fn lemma_push_onto_full<T>(s: Seq<T>, v: T, cap: nat)
    requires
        cap > 0,
        s.len() == cap,
    ensures
        pushed(s, v, cap).len() == cap,
        pushed(s, v, cap)[cap - 1] == v,
        forall|i: int| 0 <= i < cap - 1 ==> #[trigger] pushed(s, v, cap)[i] == s[i + 1],
{
}

/// A bounded first-in first-out history held in a fixed-capacity ring: once
/// full, each new entry overwrites the oldest one.
pub struct History<T> {
    buf: Vec<T>,
    start: usize,
    capacity: usize,
}

impl<T> View for History<T> {
    type V = Seq<T>;

    /// The entries, oldest first.
    closed spec fn view(&self) -> Seq<T> {
        Seq::new(self.buf@.len(), |i: int| self.buf@[(self.start + i) % (self.buf@.len() as int)])
    }
}

impl<T: Copy> History<T> {
    /// The largest number of entries kept.
    pub closed spec fn cap(&self) -> nat {
        self.capacity as nat
    }

    /// The ring is consistent: it holds at most `cap` entries, and the
    /// oldest entry sits at the front until the ring first fills up.
    pub closed spec fn wf(&self) -> bool {
        &&& self.capacity > 0
        &&& self.buf@.len() <= self.capacity
        &&& self.start < self.capacity
        &&& self.buf@.len() < self.capacity ==> self.start == 0
    }

    /// An empty history that keeps at most `capacity` entries.
    pub fn new(capacity: usize) -> (r: Self)
        requires
            capacity > 0,
        ensures
            r.wf(),
            r@ == Seq::<T>::empty(),
            r.cap() == capacity,
    {
        History { buf: Vec::with_capacity(capacity), start: 0, capacity }
    }

    /// Number of entries held.
    pub fn len(&self) -> (r: usize)
        requires
            self.wf(),
        ensures
            r == self@.len(),
            r <= self.cap(),
    {
        self.buf.len()
    }

    /// The largest number of entries kept.
    pub fn capacity(&self) -> (r: usize)
        ensures
            r == self.cap(),
    {
        self.capacity
    }

    /// The `i`-th entry, counting from the oldest.
    pub fn get(&self, i: usize) -> (r: T)
        requires
            self.wf(),
            i < self@.len(),
        ensures
            r == self@[i as int],
    {
        let n = self.buf.len();
        let j = if i < n - self.start { self.start + i } else { i - (n - self.start) };
        proof {
            if self.start + i >= n {
                assert((self.start + i) % (n as int) == self.start + i - n) by {
                    vstd::arithmetic::div_mod::lemma_fundamental_div_mod_converse(
                        (self.start + i) as int, n as int, 1, (self.start + i - n) as int);
                }
            } else {
                vstd::arithmetic::div_mod::lemma_small_mod((self.start + i) as nat, n as nat);
            }
        }
        self.buf[j]
    }

    /// Appends `v` as the newest entry; when the history is full, the oldest
    /// entry is dropped first, so the length never exceeds the capacity.
    pub fn push(&mut self, v: T)
        requires
            old(self).wf(),
        ensures
            final(self).wf(),
            final(self).cap() == old(self).cap(),
            final(self)@ == pushed(old(self)@, v, old(self).cap()),
            final(self)@.len() <= final(self).cap(),
    {
        let ghost before = self@;
        let ghost old_buf = self.buf@;
        if self.buf.len() < self.capacity {
            self.buf.push(v);
            proof {
                assert forall|i: int| 0 <= i < self@.len() implies self@[i] == before.push(v)[i] by {
                    vstd::arithmetic::div_mod::lemma_small_mod(i as nat, self.buf@.len() as nat);
                    if i < old_buf.len() {
                        vstd::arithmetic::div_mod::lemma_small_mod(i as nat, old_buf.len() as nat);
                        assert(before[i] == old_buf[i]);
                    }
                }
                assert(self@ =~= before.push(v));
            }
        } else {
            let n = self.capacity;
            let s = self.start;
            self.buf.set(s, v);
            self.start = if s + 1 < n { s + 1 } else { 0 };
            proof {
                let ni = n as int;
                assert forall|i: int| 0 <= i < ni implies self@[i] == before.drop_first().push(v)[i] by {
                    let a = (self.start + i) % ni;
                    let b = (s + i + 1) % ni;
                    vstd::arithmetic::div_mod::lemma_mod_add_multiples_vanish((s + i + 1) as int, ni);
                    if s + 1 < n {
                        assert(a == b);
                    } else {
                        assert(self.start + i + ni == s + i + 1);
                        vstd::arithmetic::div_mod::lemma_mod_add_multiples_vanish(i, ni);
                        assert(a == b);
                    }
                    if i < ni - 1 {
                        assert(b != s as int) by {
                            if s + i + 1 < ni {
                                vstd::arithmetic::div_mod::lemma_small_mod((s + i + 1) as nat, n as nat);
                            } else {
                                vstd::arithmetic::div_mod::lemma_fundamental_div_mod_converse(
                                    (s + i + 1) as int, ni, 1, (s + i + 1 - ni) as int);
                            }
                        }
                    } else {
                        vstd::arithmetic::div_mod::lemma_mod_self_0(ni);
                        vstd::arithmetic::div_mod::lemma_mod_add_multiples_vanish(s as int, ni);
                        vstd::arithmetic::div_mod::lemma_small_mod(s as nat, n as nat);
                        assert(b == s as int);
                    }
                }
                assert(self@ =~= before.drop_first().push(v));
            }
        }
    }

    /// The entries, oldest first.
    pub fn to_vec(&self) -> (r: Vec<T>)
        requires
            self.wf(),
        ensures
            r@ == self@,
    {
        let mut out: Vec<T> = Vec::with_capacity(self.buf.len());
        let mut i: usize = 0;
        while i < self.buf.len()
            invariant
                self.wf(),
                i <= self@.len(),
                out@ == self@.subrange(0, i as int),
            decreases self@.len() - i,
        {
            out.push(self.get(i));
            i = i + 1;
        }
        assert(out@ =~= self@);
        out
    }
}

} // verus!
