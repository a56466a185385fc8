use vstd::prelude::*;
use super::event::{level_rank, Event, EventBuffer, LevelFilter};

verus! {

/// The events of `events` that are published at `level`: those as severe as the level or
/// more, in the order they were reported.
pub open spec fn publishable(events: Seq<Event>, level: LevelFilter) -> Seq<Event>
    decreases events.len(),
{
    if events.len() == 0 {
        Seq::empty()
    } else {
        let rest = publishable(events.drop_last(), level);
        if level_rank(events.last().level) <= level_rank(level) {
            rest.push(events.last())
        } else {
            rest
        }
    }
}

impl EventBuffer {
    /// Collects the events reported so far, leaving the buffer empty, and returns those that
    /// are published at `level`, oldest first.
    pub fn take_publishable(&mut self, level: &LevelFilter) -> (published: Vec<Event>)
        ensures
            final(self).events@ == Seq::<Event>::empty(),
            published@ == publishable(old(self).events@, *level),
    {
        let ghost all = self.events@;
        let n: usize = self.events.len();
        let max = level.rank();
        let mut published: Vec<Event> = Vec::new();
        let mut i: usize = 0;
        while self.events.len() > 0
            invariant
                all.len() == n,
                i <= n,
                self.events@ == all.skip(i as int),
                published@ == publishable(all.take(i as int), *level),
                max == level_rank(*level),
            decreases self.events@.len(),
        {
            let event = self.events.remove(0);
            proof {
                assert(all.take(i as int + 1).drop_last() =~= all.take(i as int));
                assert(all.take(i as int + 1).last() == all[i as int]);
                assert(self.events@ =~= all.skip(i as int + 1));
            }
            if event.level.rank() <= max {
                published.push(event);
            }
            i = i + 1;
        }
        proof {
            assert(all.take(i as int) =~= all);
        }
        published
    }
}

/// The published events are exactly the reported ones that are as severe as the level or
/// more: none is made up, none that qualifies is left out, and none too mild gets through.
pub proof fn lemma_publishable_meaning(events: Seq<Event>, level: LevelFilter)
    ensures
        publishable(events, level).len() <= events.len(),
        forall|e: Event| #[trigger] publishable(events, level).contains(e) ==> events.contains(e)
            && level_rank(e.level) <= level_rank(level),
        forall|i: int| 0 <= i < events.len() && level_rank(events[i].level) <= level_rank(level)
            ==> publishable(events, level).contains(#[trigger] events[i]),
    decreases events.len(),
{
    if events.len() > 0 {
        let rest = events.drop_last();
        lemma_publishable_meaning(rest, level);
        assert forall|e: Event| #[trigger] publishable(events, level).contains(e) implies events.contains(e)
            && level_rank(e.level) <= level_rank(level) by {
            if publishable(rest, level).contains(e) {
                let j = choose|j: int| 0 <= j < rest.len() && rest[j] == e;
                assert(events[j] == e);
            } else {
                assert(e == events.last());
                assert(events[events.len() - 1] == e);
            }
        }
        assert forall|i: int| 0 <= i < events.len() && level_rank(events[i].level) <= level_rank(level)
            implies publishable(events, level).contains(#[trigger] events[i]) by {
            if i < events.len() - 1 {
                assert(rest[i] == events[i]);
                let k = choose|k: int| 0 <= k < publishable(rest, level).len() && publishable(rest, level)[k] == rest[i];
                if level_rank(events.last().level) <= level_rank(level) {
                    assert(publishable(events, level)[k] == events[i]);
                }
            } else {
                let p = publishable(events, level);
                assert(p[p.len() - 1] == events[i]);
            }
        }
    }
}

} // verus!
