//! Moving from file to file in a directory.

use vstd::prelude::*;

verus! {

/// Where to go.
#[derive(Clone, Copy, Debug, PartialEq, Eq, Structural)]
pub enum Navigate {
    Next,
    Previous,
    First,
    Last,
}

/// What going there takes.
#[derive(Clone, Copy, Debug, PartialEq, Eq, Structural)]
pub enum NavigationStep {
    Stay,
    /// Make the page the current one and scroll the strip to it.
    ScrollTo(usize),
    StripStart,
    StripEnd,
    /// Open the file by itself.
    Open(usize),
}

/// The file after `current`; the first one follows the last.
pub open spec fn after(current: int, count: int) -> int {
    if current + 1 >= count {
        0
    } else {
        current + 1
    }
}

/// The file before `current`; the last one precedes the first.
pub open spec fn before(current: int, count: int) -> int {
    if current == 0 {
        count - 1
    } else {
        current - 1
    }
}

/// What going somewhere takes.  In a full-screen strip all files are there
/// already, so it is only scrolled.
pub open spec fn navigation(
    to: Navigate,
    current: usize,
    count: usize,
    strip_fullscreen: bool,
) -> NavigationStep {
    if count == 0 {
        NavigationStep::Stay
    } else {
        match to {
            Navigate::Next => if strip_fullscreen {
                NavigationStep::ScrollTo(after(current as int, count as int) as usize)
            } else {
                NavigationStep::Open(after(current as int, count as int) as usize)
            },
            Navigate::Previous => if strip_fullscreen {
                NavigationStep::ScrollTo(before(current as int, count as int) as usize)
            } else {
                NavigationStep::Open(before(current as int, count as int) as usize)
            },
            Navigate::First => if strip_fullscreen {
                NavigationStep::StripStart
            } else if current == 0 {
                NavigationStep::Stay
            } else {
                NavigationStep::Open(0)
            },
            Navigate::Last => if strip_fullscreen {
                NavigationStep::StripEnd
            } else if current == count - 1 {
                NavigationStep::Stay
            } else {
                NavigationStep::Open((count - 1) as usize)
            },
        }
    }
}

fn index_after(current: usize, count: usize) -> (index: usize)
    ensures
        index == after(current as int, count as int),
{
    if current >= count || current + 1 >= count {
        0
    } else {
        current + 1
    }
}

fn index_before(current: usize, count: usize) -> (index: usize)
    requires
        count > 0,
    ensures
        index == before(current as int, count as int),
{
    if current == 0 {
        count - 1
    } else {
        current - 1
    }
}

/// Goes to the next file.
pub fn next_image(current: usize, count: usize, strip_fullscreen: bool) -> (step: NavigationStep)
    ensures
        step == navigation(Navigate::Next, current, count, strip_fullscreen),
{
    if count == 0 {
        NavigationStep::Stay
    } else if strip_fullscreen {
        NavigationStep::ScrollTo(index_after(current, count))
    } else {
        NavigationStep::Open(index_after(current, count))
    }
}

/// Goes to the previous file.
pub fn prev_image(current: usize, count: usize, strip_fullscreen: bool) -> (step: NavigationStep)
    ensures
        step == navigation(Navigate::Previous, current, count, strip_fullscreen),
{
    if count == 0 {
        NavigationStep::Stay
    } else if strip_fullscreen {
        NavigationStep::ScrollTo(index_before(current, count))
    } else {
        NavigationStep::Open(index_before(current, count))
    }
}

/// Goes to the first file.
pub fn first_image(current: usize, count: usize, strip_fullscreen: bool) -> (step: NavigationStep)
    ensures
        step == navigation(Navigate::First, current, count, strip_fullscreen),
{
    if count == 0 {
        NavigationStep::Stay
    } else if strip_fullscreen {
        NavigationStep::StripStart
    } else if current == 0 {
        NavigationStep::Stay
    } else {
        NavigationStep::Open(0)
    }
}

/// Goes to the last file.
pub fn last_image(current: usize, count: usize, strip_fullscreen: bool) -> (step: NavigationStep)
    ensures
        step == navigation(Navigate::Last, current, count, strip_fullscreen),
{
    if count == 0 {
        NavigationStep::Stay
    } else if strip_fullscreen {
        NavigationStep::StripEnd
    } else if current == count - 1 {
        NavigationStep::Stay
    } else {
        NavigationStep::Open(count - 1)
    }
}

/// Going on and going back undo each other, also around the ends.
pub proof fn law_next_and_previous_are_inverse(current: int, count: int)
    requires
        0 <= current < count,
    ensures
        before(after(current, count), count) == current,
        after(before(current, count), count) == current,
{
}

/// Going on never leaves the list.
pub proof fn law_navigation_stays_in_list(to: Navigate, current: usize, count: usize, strip: bool)
    requires
        current < count,
    ensures
        navigation(to, current, count, strip) matches NavigationStep::Open(index) ==> index < count,
        navigation(to, current, count, strip) matches NavigationStep::ScrollTo(index) ==> index
            < count,
{
}

/// The file that is reached by going on `steps` times.
pub open spec fn walked(current: int, count: int, steps: nat) -> int
    decreases steps,
{
    if steps == 0 {
        current
    } else {
        after(walked(current, count, (steps - 1) as nat), count)
    }
}

proof fn lemma_walked(current: int, count: int, steps: nat)
    requires
        0 <= current < count,
        current + steps <= 2 * count,
    ensures
        walked(current, count, steps) == (if current + steps < count {
            current + steps
        } else if current + steps < 2 * count {
            current + steps - count
        } else {
            0
        }),
    decreases steps,
{
    if steps > 0 {
        lemma_walked(current, count, (steps - 1) as nat);
    }
}

/// Going on as often as there are files leads back to where one was.
pub proof fn law_walk_is_a_cycle(current: int, count: int)
    requires
        0 <= current < count,
    ensures
        walked(current, count, count as nat) == current,
{
    lemma_walked(current, count, count as nat);
}

pub open spec fn capped(index: usize, count: usize) -> int {
    if index > count - 1 {
        count - 1
    } else {
        index as int
    }
}

/// How far apart two files are when one may go around the ends.
pub open spec fn circular_distance(from: usize, to: usize, count: usize) -> int {
    if count <= 1 {
        0
    } else {
        let a = capped(from, count);
        let b = capped(to, count);
        let direct = if a < b {
            b - a
        } else {
            a - b
        };
        if direct < count - direct {
            direct
        } else {
            count - direct
        }
    }
}

/// How far apart two files are when one may go around the ends.
pub fn circular_index_distance(from: usize, to: usize, count: usize) -> (distance: usize)
    ensures
        distance == circular_distance(from, to, count),
{
    if count <= 1 {
        return 0;
    }
    let a: usize = if from > count - 1 {
        count - 1
    } else {
        from
    };
    let b: usize = if to > count - 1 {
        count - 1
    } else {
        to
    };
    let direct: usize = if a < b {
        b - a
    } else {
        a - b
    };
    if direct < count - direct {
        direct
    } else {
        count - direct
    }
}

/// The distance is the same both ways, and never more than half the way around.
pub proof fn law_circular_distance(from: usize, to: usize, count: usize)
    ensures
        circular_distance(from, to, count) == circular_distance(to, from, count),
        2 * circular_distance(from, to, count) <= count,
        from < count && to < count ==> (circular_distance(from, to, count) == 0 <==> from == to),
{
}

/// One step in either direction is a distance of one at most.
pub proof fn law_neighbours_are_near(current: usize, count: usize)
    requires
        current < count,
    ensures
        circular_distance(current, after(current as int, count as int) as usize, count) <= 1,
        circular_distance(current, before(current as int, count as int) as usize, count) <= 1,
{
}

/// The file that a step leads to, if it names one.
pub open spec fn leads_to(step: NavigationStep) -> Option<usize> {
    match step {
        NavigationStep::Open(index) => Some(index),
        NavigationStep::ScrollTo(index) => Some(index),
        _ => None,
    }
}

/// Going on opens the file after the current one and going back the one before it,
/// and around the ends of the directory each leads to the other end.  A full-screen
/// strip is scrolled there, otherwise the file is opened by itself.
pub proof fn law_steps_go_to_the_neighbours(current: usize, count: usize, strip: bool)
    requires
        current < count,
    ensures
        current + 1 < count ==> leads_to(navigation(Navigate::Next, current, count, strip)) == Some(
            (current + 1) as usize,
        ),
        current + 1 == count ==> leads_to(navigation(Navigate::Next, current, count, strip)) == Some(
            0usize,
        ),
        0 < current ==> leads_to(navigation(Navigate::Previous, current, count, strip)) == Some(
            (current - 1) as usize,
        ),
        0 == current ==> leads_to(navigation(Navigate::Previous, current, count, strip)) == Some(
            (count - 1) as usize,
        ),
        strip <==> navigation(Navigate::Next, current, count, strip) is ScrollTo,
        strip <==> navigation(Navigate::Previous, current, count, strip) is ScrollTo,
{
}

/// Going back after going on leads to the same file, and so does going on after
/// going back.
pub proof fn law_steps_undo_each_other(current: usize, count: usize, strip: bool)
    requires
        current < count,
    ensures
        leads_to(navigation(Navigate::Next, current, count, strip)) matches Some(next) && next < count
            && leads_to(navigation(Navigate::Previous, next, count, strip)) == Some(current),
        leads_to(navigation(Navigate::Previous, current, count, strip)) matches Some(previous)
            && previous < count && leads_to(navigation(Navigate::Next, previous, count, strip)) == Some(
            current,
        ),
{
}

/// Whatever is current, going on leads into the directory; without files every step
/// stays where it is.
pub proof fn law_steps_need_files(to: Navigate, current: usize, count: usize, strip: bool)
    ensures
        count == 0 <==> navigation(Navigate::Next, current, count, strip) == NavigationStep::Stay,
        count == 0 ==> navigation(to, current, count, strip) == NavigationStep::Stay,
        count > 0 ==> (leads_to(navigation(Navigate::Next, current, count, strip)) matches Some(next)
            && next < count),
{
}

/// After going to the first or the last file, that file is the open one; it is not
/// opened anew where it was.  A full-screen strip goes to its start or its end.
pub proof fn law_ends_are_reached(current: usize, count: usize, strip: bool)
    requires
        current < count,
    ensures
        strip ==> navigation(Navigate::First, current, count, strip) == NavigationStep::StripStart,
        strip ==> navigation(Navigate::Last, current, count, strip) == NavigationStep::StripEnd,
        !strip ==> match navigation(Navigate::First, current, count, strip) {
            NavigationStep::Stay => current == 0,
            NavigationStep::Open(index) => current != 0 && index == 0,
            _ => false,
        },
        !strip ==> match navigation(Navigate::Last, current, count, strip) {
            NavigationStep::Stay => current + 1 == count,
            NavigationStep::Open(index) => current + 1 != count && index + 1 == count,
            _ => false,
        },
{
}

/// The circular distance is the least number of steps that lead from one file to the
/// other, in whichever direction.
pub proof fn law_circular_distance_counts_steps(from: usize, to: usize, count: usize, fewer: nat)
    requires
        from < count,
        to < count,
    ensures
        ({
            let steps = circular_distance(from, to, count) as nat;
            &&& walked(from as int, count as int, steps) == to || walked(
                to as int,
                count as int,
                steps,
            ) == from
            &&& fewer < steps ==> walked(from as int, count as int, fewer) != to && walked(
                to as int,
                count as int,
                fewer,
            ) != from
        }),
{
    let steps = circular_distance(from, to, count) as nat;
    assert(0 <= circular_distance(from, to, count) <= count);
    lemma_walked(from as int, count as int, steps);
    lemma_walked(to as int, count as int, steps);
    if fewer < steps {
        lemma_walked(from as int, count as int, fewer);
        lemma_walked(to as int, count as int, fewer);
    }
}

/// One step on along the walk is the file that going on leads to.
pub proof fn law_walk_follows_the_steps(current: usize, count: usize, steps: nat, strip: bool)
    requires
        current < count,
    ensures
        0 <= walked(current as int, count as int, steps) < count,
        leads_to(
            navigation(
                Navigate::Next,
                walked(current as int, count as int, steps) as usize,
                count,
                strip,
            ),
        ) == Some(walked(current as int, count as int, steps + 1) as usize),
    decreases steps,
{
    if steps > 0 {
        law_walk_follows_the_steps(current, count, (steps - 1) as nat, strip);
    }
}

/// Going back from the file that going on led to leads to where one was, and the other
/// way round.
pub proof fn law_next_and_previous_lead_back(
    current: usize,
    count: usize,
    strip: bool,
    other_strip: bool,
    on: NavigationStep,
    on_and_back: NavigationStep,
    back: NavigationStep,
    back_and_on: NavigationStep,
)
    requires
        current < count,
        call_ensures(next_image, (current, count, strip), on),
        leads_to(on) is Some,
        call_ensures(prev_image, (leads_to(on)->0, count, other_strip), on_and_back),
        call_ensures(prev_image, (current, count, strip), back),
        leads_to(back) is Some,
        call_ensures(next_image, (leads_to(back)->0, count, other_strip), back_and_on),
    ensures
        leads_to(on_and_back) == Some(current),
        leads_to(back_and_on) == Some(current),
{
}

/// Going back leads one file back, from the first to the last, and never anywhere else;
/// going on leads one file on, from the last to the first.
pub proof fn law_next_and_previous_are_the_neighbours(
    current: usize,
    count: usize,
    strip: bool,
    on: NavigationStep,
    back: NavigationStep,
)
    requires
        call_ensures(next_image, (current, count, strip), on),
        call_ensures(prev_image, (current, count, strip), back),
    ensures
        count == 0 ==> on is Stay && back is Stay,
        count > 0 && strip ==> on is ScrollTo && back is ScrollTo,
        count > 0 && !strip ==> on is Open && back is Open,
        count > 0 && current > 0 ==> leads_to(back) == Some((current - 1) as usize),
        count > 0 && current == 0 ==> leads_to(back) == Some((count - 1) as usize),
        count > 0 && current + 1 < count ==> leads_to(on) == Some((current + 1) as usize),
        count > 0 && current + 1 >= count ==> leads_to(on) == Some(0usize),
{
}

/// The first and the last file are gone to only from elsewhere; a full-screen strip goes
/// to its start or its end.
pub proof fn law_first_and_last_are_the_ends(
    current: usize,
    count: usize,
    strip: bool,
    first: NavigationStep,
    last: NavigationStep,
)
    requires
        call_ensures(first_image, (current, count, strip), first),
        call_ensures(last_image, (current, count, strip), last),
    ensures
        count == 0 ==> first is Stay && last is Stay,
        count > 0 && strip ==> first is StripStart && last is StripEnd,
        count > 0 && !strip && current > 0 ==> first == NavigationStep::Open(0),
        count > 0 && !strip && current == 0 ==> first is Stay,
        count > 0 && !strip && current + 1 != count ==> last == NavigationStep::Open(
            (count - 1) as usize,
        ),
        count > 0 && !strip && current + 1 == count ==> last is Stay,
{
}

/// The distance of two files is the shorter way round, from either.
pub proof fn law_distance_is_the_shorter_way_round(
    from: usize,
    to: usize,
    count: usize,
    distance: usize,
    back: usize,
)
    requires
        call_ensures(circular_index_distance, (from, to, count), distance),
        call_ensures(circular_index_distance, (to, from, count), back),
        from <= to < count,
    ensures
        distance == back,
        distance <= to - from,
        distance <= count - (to - from),
        count > 1 ==> distance == to - from || distance == count - (to - from),
        distance == 0 <==> from == to,
{
}

/// An index behind the last file counts as the last file.
pub proof fn law_distance_reckons_with_the_last_file(
    from: usize,
    to: usize,
    count: usize,
    distance: usize,
    capped_distance: usize,
)
    requires
        count > 0,
        from >= count,
        call_ensures(circular_index_distance, (from, to, count), distance),
        call_ensures(
            circular_index_distance,
            ((count - 1) as usize, to, count),
            capped_distance,
        ),
    ensures
        distance == capped_distance,
{
}

} // verus!
