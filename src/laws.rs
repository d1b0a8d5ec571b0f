use vstd::prelude::*;

use crate::event::{Event, Size};
use crate::session::{
    count_cleanups, count_presents, frame, frames, output_after, output_for, prepare_plan, Command,
    Output,
};

verus! {

/// Whether none of the commands `cs` resizes the render target.
pub open spec fn keeps_output(cs: Seq<Command>) -> bool {
    forall|i: int| 0 <= i < cs.len() ==> !(cs[i] is SetOutput)
}

/// Whether none of the events `es` is a resize notification.
pub open spec fn no_resize(es: Seq<Event>) -> bool {
    forall|i: int| 0 <= i < es.len() ==> !(es[i] is Resize)
}

proof fn lemma_frames_append(a: Seq<Event>, b: Seq<Event>)
    ensures
        frames(a + b) == frames(a) + frames(b),
    decreases b.len(),
{
    if b.len() == 0 {
        assert(a + b =~= a);
        assert(frames(a) + frames(b) =~= frames(a));
    } else {
        assert((a + b).drop_last() =~= a + b.drop_last());
        assert((a + b).last() == b.last());
        lemma_frames_append(a, b.drop_last());
        assert(frames(a + b) =~= frames(a) + frames(b));
    }
}

proof fn lemma_output_after_kept(o: Output, a: Seq<Command>, b: Seq<Command>)
    requires
        keeps_output(b),
    ensures
        output_after(o, a + b) == output_after(o, a),
    decreases b.len(),
{
    if b.len() == 0 {
        assert(a + b =~= a);
    } else {
        assert((a + b).drop_last() =~= a + b.drop_last());
        assert((a + b).last() == b.last());
        assert(!(b[b.len() - 1] is SetOutput));
        lemma_output_after_kept(o, a, b.drop_last());
    }
}

proof fn lemma_frames_keep_output(es: Seq<Event>)
    requires
        no_resize(es),
    ensures
        keeps_output(frames(es)),
    decreases es.len(),
{
    if es.len() > 0 {
        assert(!(es[es.len() - 1] is Resize));
        lemma_frames_keep_output(es.drop_last());
        assert(keeps_output(frame(es.last())));
    }
}

/// After a resize notification to `size`, the render target has exactly
/// that size at every point of what follows, up to the next resize
/// notification: every later draw sees it.
pub proof fn lemma_resize_sets_output(o: Output, size: Size, later: Seq<Event>)
    requires
        no_resize(later),
    ensures
        forall|k: int|
            0 <= k <= frames(later).len() ==> output_after(
                o,
                prepare_plan(Event::Resize(size)) + #[trigger] frames(later).take(k),
            ) == output_for(size),
{
    let p = prepare_plan(Event::Resize(size));
    assert(p.drop_last() =~= Seq::<Command>::empty());
    assert(output_after(o, p) == output_for(size));
    lemma_frames_keep_output(later);
    assert forall|k: int| 0 <= k <= frames(later).len() implies output_after(
        o,
        p + #[trigger] frames(later).take(k),
    ) == output_for(size) by {
        assert(keeps_output(frames(later).take(k)));
        lemma_output_after_kept(o, p, frames(later).take(k));
    }
}

proof fn lemma_count_cleanups_append(a: Seq<Command>, b: Seq<Command>)
    ensures
        count_cleanups(a + b) == count_cleanups(a) + count_cleanups(b),
    decreases b.len(),
{
    if b.len() == 0 {
        assert(a + b =~= a);
    } else {
        assert((a + b).drop_last() =~= a + b.drop_last());
        assert((a + b).last() == b.last());
        lemma_count_cleanups_append(a, b.drop_last());
    }
}

proof fn lemma_count_cleanups_none(cs: Seq<Command>)
    requires
        forall|i: int| 0 <= i < cs.len() ==> cs[i] != Command::Cleanup,
    ensures
        count_cleanups(cs) == 0,
    decreases cs.len(),
{
    if cs.len() > 0 {
        lemma_count_cleanups_none(cs.drop_last());
    }
}

proof fn lemma_count_cleanups_frame(e: Event)
    ensures
        count_cleanups(frame(e)) == if e == Event::AfterRender {
            1nat
        } else {
            0nat
        },
{
    reveal_with_fuel(count_cleanups, 4);
    match e {
        Event::Render(v) => {
            assert(frame(e) =~= seq![Command::Draw2d(v), Command::Flush, Command::Draw3d, Command::Flush]);
            lemma_count_cleanups_none(frame(e));
        },
        Event::AfterRender => {
            assert(frame(e) =~= seq![Command::Cleanup]);
            assert(seq![Command::Cleanup].drop_last() =~= Seq::<Command>::empty());
        },
        Event::Resize(s) => {
            let c = Command::SetOutput(output_for(s));
            assert(frame(e) =~= seq![c]);
            assert(seq![c].drop_last() =~= Seq::<Command>::empty());
        },
        _ => {
            assert(frame(e) =~= Seq::<Command>::empty());
        },
    }
}

/// Over any run of events, the device is cleaned up exactly once for each
/// post-present notification. The cleanup for the notification at `i` is the
/// last thing done up to and including that event, so it comes before all
/// that the sessions after it do, their draws included.
pub proof fn lemma_cleanup_once_per_present(es: Seq<Event>)
    ensures
        count_cleanups(frames(es)) == count_presents(es),
        forall|i: int|
            0 <= i < es.len() && es[i] == Event::AfterRender ==> {
                &&& #[trigger] frames(es.take(i + 1)).last() == Command::Cleanup
                &&& frames(es) == frames(es.take(i + 1)) + frames(es.skip(i + 1))
            },
    decreases es.len(),
{
    if es.len() > 0 {
        lemma_cleanup_once_per_present(es.drop_last());
        lemma_count_cleanups_append(frames(es.drop_last()), frame(es.last()));
        lemma_count_cleanups_frame(es.last());
    }
    assert forall|i: int| 0 <= i < es.len() && es[i] == Event::AfterRender implies {
        &&& #[trigger] frames(es.take(i + 1)).last() == Command::Cleanup
        &&& frames(es) == frames(es.take(i + 1)) + frames(es.skip(i + 1))
    } by {
        let t = es.take(i + 1);
        assert(t.drop_last() =~= es.take(i));
        assert(t.last() == Event::AfterRender);
        assert(frame(Event::AfterRender) =~= seq![Command::Cleanup]);
        assert(es =~= t + es.skip(i + 1));
        lemma_frames_append(t, es.skip(i + 1));
    }
}

} // verus!
