//! The stream registry: which streams are active, each with the
//! cancellation token that its consumer checks.
use vstd::prelude::*;
use tokio_util::sync::CancellationToken;
use crate::text::same_text;

verus! {

#[verifier::external_type_specification]
#[verifier::external_body]
pub struct ExCancellationToken(CancellationToken);

/// Relies on `CancellationToken::new`: a fresh token, not cancelled.
pub assume_specification[ CancellationToken::new ]() -> CancellationToken;

/// Relies on `CancellationToken::clone`: a token that shares its state with
/// the token it is cloned from, so that the two stand for one token.
pub assume_specification[ <CancellationToken as Clone>::clone ](
    token: &CancellationToken,
) -> (r: CancellationToken)
    ensures
        r == *token,
;

/// Relies on `CancellationToken::cancel`: marks the token, and every clone of
/// it, as cancelled.
pub assume_specification[ CancellationToken::cancel ](token: &CancellationToken);

/// An active stream and its token.
pub struct StreamContext {
    pub stream_id: String,
    pub token: CancellationToken,
}

/// The ids of some contexts, in order.
pub open spec fn ids_of(entries: Seq<StreamContext>) -> Seq<Seq<char>> {
    entries.map_values(|e: StreamContext| e.stream_id@)
}

/// The active streams, at most one context per id.
pub struct StreamRegistry {
    entries: Vec<StreamContext>,
}

/// The token of the context registered under `id` in `entries`.
pub open spec fn token_in(entries: Seq<StreamContext>, id: Seq<char>) -> CancellationToken {
    entries[index_in(entries, id)].token
}

/// A position of `id` in `entries`, where it occurs.
pub open spec fn index_in(entries: Seq<StreamContext>, id: Seq<char>) -> int {
    choose|i: int| 0 <= i < entries.len() && entries[i].stream_id@ == id
}

proof fn lemma_token_at(entries: Seq<StreamContext>, k: int)
    requires
        ids_of(entries).no_duplicates(),
        0 <= k < entries.len(),
    ensures
        token_in(entries, ids_of(entries)[k]) == entries[k].token,
{
    let id = ids_of(entries)[k];
    assert(entries[k].stream_id@ == id);
    assert(exists|i: int| 0 <= i < entries.len() && entries[i].stream_id@ == id);
    let i = index_in(entries, id);
    assert(0 <= i < entries.len() && entries[i].stream_id@ == id);
    assert(ids_of(entries)[i] == entries[i].stream_id@);
    assert(ids_of(entries)[i] == ids_of(entries)[k]);
}

/// Every stream still active in `after`, other than `id`, has the token it
/// had in `before`.
pub open spec fn tokens_kept_except(
    before: StreamRegistry,
    after: StreamRegistry,
    id: Option<Seq<char>>,
) -> bool {
    forall|x: Seq<char>|
        after.active().contains(x) && id != Some(x) ==> #[trigger] after.token_of(x)
            == before.token_of(x)
}

/// `after` is `before` once `id` is cancelled, `r` telling whether it was
/// active.
pub open spec fn cancelled(before: StreamRegistry, after: StreamRegistry, id: Seq<char>, r: bool) -> bool {
    &&& after.wf()
    &&& r == before.active().contains(id)
    &&& after.active() == without(before.active(), id)
    &&& !r ==> after == before
    &&& tokens_kept_except(before, after, None)
}

/// The active ids once `id` is cancelled or removed.
pub open spec fn without(active: Set<Seq<char>>, id: Seq<char>) -> Set<Seq<char>> {
    active.remove(id)
}

proof fn lemma_remove_id(entries: Seq<StreamContext>, i: int)
    requires
        0 <= i < entries.len(),
        ids_of(entries).no_duplicates(),
    ensures
        ids_of(entries.remove(i)) == ids_of(entries).remove(i),
        ids_of(entries.remove(i)).no_duplicates(),
        ids_of(entries.remove(i)).to_set() == ids_of(entries).to_set().remove(ids_of(entries)[i]),
{
    let old_ids = ids_of(entries);
    let new_ids = ids_of(entries.remove(i));
    assert(new_ids =~= old_ids.remove(i));
    let id = old_ids[i];
    assert forall|x: Seq<char>| new_ids.contains(x) <==> (old_ids.contains(x) && x != id) by {
        if new_ids.contains(x) {
            let k = choose|k: int| 0 <= k < new_ids.len() && new_ids[k] == x;
            if k < i {
                assert(old_ids[k] == x);
            } else {
                assert(old_ids[k + 1] == x);
            }
        }
        if old_ids.contains(x) && x != id {
            let k = choose|k: int| 0 <= k < old_ids.len() && old_ids[k] == x;
            assert(k != i);
            if k < i {
                assert(new_ids[k] == x);
            } else {
                assert(new_ids[k - 1] == x);
            }
        }
    }
    assert(new_ids.to_set() =~= old_ids.to_set().remove(id));
}

proof fn lemma_remove_keeps_tokens(entries: Seq<StreamContext>, i: int)
    requires
        0 <= i < entries.len(),
        ids_of(entries).no_duplicates(),
    ensures
        forall|x: Seq<char>|
            ids_of(entries.remove(i)).contains(x) ==> token_in(entries.remove(i), x) == token_in(
                entries,
                x,
            ),
{
    lemma_remove_id(entries, i);
    let ne = entries.remove(i);
    assert forall|x: Seq<char>| ids_of(ne).contains(x) implies token_in(ne, x) == token_in(
        entries,
        x,
    ) by {
        let k = choose|k: int| 0 <= k < ids_of(ne).len() && ids_of(ne)[k] == x;
        lemma_token_at(ne, k);
        let k2 = if k < i {
            k
        } else {
            k + 1
        };
        assert(ne[k] == entries[k2]);
        assert(ids_of(entries)[k2] == x);
        lemma_token_at(entries, k2);
    }
}

proof fn lemma_push_keeps_tokens(entries: Seq<StreamContext>, c: StreamContext)
    requires
        ids_of(entries).no_duplicates(),
        ids_of(entries.push(c)).no_duplicates(),
    ensures
        forall|x: Seq<char>|
            ids_of(entries).contains(x) ==> token_in(entries.push(c), x) == token_in(entries, x),
        token_in(entries.push(c), c.stream_id@) == c.token,
{
    let ne = entries.push(c);
    assert forall|x: Seq<char>| ids_of(entries).contains(x) implies token_in(ne, x) == token_in(
        entries,
        x,
    ) by {
        let k = choose|k: int| 0 <= k < ids_of(entries).len() && ids_of(entries)[k] == x;
        lemma_token_at(entries, k);
        assert(ne[k] == entries[k]);
        assert(ids_of(ne)[k] == x);
        lemma_token_at(ne, k);
    }
    assert(ids_of(ne)[entries.len() as int] == c.stream_id@);
    lemma_token_at(ne, entries.len() as int);
}

impl StreamRegistry {
    /// The ids of the active streams.
    pub closed spec fn active(&self) -> Set<Seq<char>> {
        ids_of(self.entries@).to_set()
    }

    /// The token stored under `id`, where `id` is active.
    pub closed spec fn token_of(&self, id: Seq<char>) -> CancellationToken
        recommends
            self.active().contains(id),
    {
        token_in(self.entries@, id)
    }

    /// No id is registered twice.
    pub closed spec fn wf(&self) -> bool {
        ids_of(self.entries@).no_duplicates()
    }

    pub fn new() -> (r: StreamRegistry)
        ensures
            r.wf(),
            r.active() == Set::<Seq<char>>::empty(),
    {
        let r = StreamRegistry { entries: Vec::new() };
        assert(ids_of(r.entries@).to_set() =~= Set::<Seq<char>>::empty());
        r
    }

    fn position(&self, id: &str) -> (r: Option<usize>)
        ensures
            r is None <==> !ids_of(self.entries@).contains(id@),
            r matches Some(i) ==> i < self.entries@.len() && ids_of(self.entries@)[i as int]
                == id@,
    {
        let n = self.entries.len();
        let mut i: usize = 0;
        while i < n
            invariant
                n == self.entries@.len(),
                0 <= i <= n,
                forall|k: int| 0 <= k < i ==> ids_of(self.entries@)[k] != id@,
            decreases n - i,
        {
            if same_text(self.entries[i].stream_id.as_str(), id) {
                assert(ids_of(self.entries@)[i as int] == id@);
                return Some(i);
            }
            i = i + 1;
        }
        None
    }

    /// Whether a stream with this id is active.
    pub fn contains(&self, id: &str) -> (r: bool)
        ensures
            r == self.active().contains(id@),
    {
        self.position(id).is_some()
    }

    /// Removes the context of `id`, if there is one.
    pub fn remove(&mut self, id: &str) -> (r: Option<StreamContext>)
        requires
            old(self).wf(),
        ensures
            final(self).wf(),
            final(self).active() == without(old(self).active(), id@),
            r is Some <==> old(self).active().contains(id@),
            r matches Some(c) ==> c.stream_id@ == id@ && c.token == old(self).token_of(id@),
            r is None ==> *final(self) == *old(self),
            tokens_kept_except(*old(self), *final(self), None),
    {
        match self.position(id) {
            Some(i) => {
                proof {
                    lemma_remove_id(self.entries@, i as int);
                    lemma_remove_keeps_tokens(self.entries@, i as int);
                    lemma_token_at(self.entries@, i as int);
                }
                let ghost before = self.entries@;
                let c = self.entries.remove(i);
                proof {
                    assert forall|x: Seq<char>| self.active().contains(x) implies self.token_of(x)
                        == token_in(before, x) by {
                        assert(ids_of(self.entries@).to_set().contains(x) <==> ids_of(
                            self.entries@,
                        ).contains(x));
                    }
                }
                Some(c)
            },
            None => {
                assert(self.active() =~= without(self.active(), id@));
                None
            },
        }
    }

    /// Registers a fresh token under `id`, replacing any context it had, and
    /// hands back a clone of the token for the consumer.
    pub fn open(&mut self, id: String) -> (r: CancellationToken)
        requires
            old(self).wf(),
        ensures
            final(self).wf(),
            final(self).active() == old(self).active().insert(id@),
            final(self).token_of(id@) == r,
            tokens_kept_except(*old(self), *final(self), Some(id@)),
    {
        let _replaced = self.remove(id.as_str());
        let ghost removed = *self;
        let token = CancellationToken::new();
        let handle = token.clone();
        let ghost mid = self.entries@;
        assert(!ids_of(mid).contains(id@)) by {
            assert(!ids_of(mid).to_set().contains(id@));
        }
        self.entries.push(StreamContext { stream_id: id, token });
        assert(ids_of(self.entries@) =~= ids_of(mid).push(id@));
        assert(ids_of(self.entries@).no_duplicates()) by {
            let s = ids_of(self.entries@);
            assert forall|a: int, b: int| 0 <= a < s.len() && 0 <= b < s.len() && a != b implies s[a]
                != s[b] by {
                if a == s.len() - 1 {
                    assert(ids_of(mid)[b] == s[b]);
                } else if b == s.len() - 1 {
                    assert(ids_of(mid)[a] == s[a]);
                }
            }
        }
        assert forall|x: Seq<char>| ids_of(self.entries@).contains(x) <==> (ids_of(mid).contains(x)
            || x == id@) by {
            let s = ids_of(self.entries@);
            if s.contains(x) && x != id@ {
                let k = choose|k: int| 0 <= k < s.len() && s[k] == x;
                assert(ids_of(mid)[k] == x);
            }
            if ids_of(mid).contains(x) {
                let k = choose|k: int| 0 <= k < ids_of(mid).len() && ids_of(mid)[k] == x;
                assert(s[k] == x);
            }
            if x == id@ {
                assert(s[s.len() - 1] == x);
            }
        }
        assert forall|x: Seq<char>| self.active().contains(x) <==> old(self).active().insert(
            id@,
        ).contains(x) by {
            assert(ids_of(mid).to_set().contains(x) <==> ids_of(mid).contains(x));
            assert(ids_of(self.entries@).to_set().contains(x) <==> ids_of(self.entries@).contains(
                x,
            ));
        }
        assert(self.active() =~= old(self).active().insert(id@));
        let ghost last = self.entries@.len() - 1;
        assert(self.entries@[last].stream_id@ == id@);
        proof {
            lemma_push_keeps_tokens(mid, self.entries@[last]);
            assert(mid.push(self.entries@[last]) == self.entries@);
            assert forall|x: Seq<char>| self.active().contains(x) && Some(id@) != Some(x) implies
                self.token_of(x) == old(self).token_of(x) by {
                assert(ids_of(self.entries@).to_set().contains(x) <==> ids_of(
                    self.entries@,
                ).contains(x));
                assert(ids_of(mid).contains(x));
                assert(ids_of(mid).to_set().contains(x));
                assert(removed.active().contains(x));
                assert(removed.token_of(x) == old(self).token_of(x));
            }
        }
        handle
    }

    /// Cancels the stream `id` and forgets it, leaving every other stream
    /// with its token; false where no such stream is active, and then the
    /// registry is left as it was.
    pub fn cancel(&mut self, id: &str) -> (r: bool)
        requires
            old(self).wf(),
        ensures
            cancelled(*old(self), *final(self), id@, r),
    {
        match self.remove(id) {
            Some(ctx) => {
                ctx.token.cancel();
                true
            },
            None => false,
        }
    }
}

} // verus!
