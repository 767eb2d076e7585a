//! The decision between raising the first match, cycling to the next match,
//! launching, and doing nothing.
use vstd::prelude::*;
use crate::condition::{all_hold, matches_all, MatchCondition};
use crate::field::Client;
use vstd::arithmetic::div_mod::{lemma_mod_self_0, lemma_small_mod};

verus! {

/// What one invocation does.
pub enum Action {
    /// Focus the window with this address.
    Focus(String),
    /// Run the launch command.
    Launch,
    /// Do nothing.
    Stay,
}

/// The model of an `Action`.
pub enum Decision {
    Focus(Seq<char>),
    Launch,
    Stay,
}

impl View for Action {
    type V = Decision;

    open spec fn view(&self) -> Decision {
        match self {
            Action::Focus(a) => Decision::Focus(a@),
            Action::Launch => Decision::Launch,
            Action::Stay => Decision::Stay,
        }
    }
}

/// The addresses of the windows of `ws` that satisfy every condition, in list order.
pub open spec fn candidates(ws: Seq<Client>, cs: Seq<MatchCondition>) -> Seq<Seq<char>>
    decreases ws.len(),
{
    if ws.len() == 0 {
        Seq::empty()
    } else {
        let rest = candidates(ws.drop_last(), cs);
        if all_hold(cs, ws.last()) {
            rest.push(ws.last().address@)
        } else {
            rest
        }
    }
}

/// `i` is the first position of `a` in `s`.
pub open spec fn is_first_position(s: Seq<Seq<char>>, a: Seq<char>, i: int) -> bool {
    &&& 0 <= i < s.len()
    &&& s[i] == a
    &&& forall|j: int| 0 <= j < i ==> s[j] != a
}

/// The first position of `a` in `s`, where it occurs; otherwise no position.
pub open spec fn first_position(s: Seq<Seq<char>>, a: Seq<char>) -> int {
    choose|i: int| is_first_position(s, a, i)
}

/// The decision from the candidate addresses and the address of the focused
/// window, when that window satisfies every condition.
pub open spec fn decision(cands: Seq<Seq<char>>, current: Option<Seq<char>>) -> Decision {
    match current {
        None => if cands.len() > 0 {
            Decision::Focus(cands[0])
        } else {
            Decision::Launch
        },
        Some(a) => {
            let i = first_position(cands, a);
            if is_first_position(cands, a, i) {
                Decision::Focus(cands[(i + 1) % cands.len() as int])
            } else {
                Decision::Stay
            }
        },
    }
}

/// The focused window's address, where it satisfies every condition.
pub open spec fn current_match(cs: Seq<MatchCondition>, focused: Option<Client>) -> Option<
    Seq<char>,
> {
    match focused {
        Some(f) => if all_hold(cs, f) {
            Some(f.address@)
        } else {
            None
        },
        None => None,
    }
}

/// The decision for a window list, the conditions and the focus query's result.
pub open spec fn selection(ws: Seq<Client>, cs: Seq<MatchCondition>, focused: Option<Client>) -> Decision {
    decision(candidates(ws, cs), current_match(cs, focused))
}

/// The decision when the window-list query may have failed (`None`).
pub open spec fn plan(list: Option<Seq<Client>>, cs: Seq<MatchCondition>, focused: Option<Client>) -> Decision {
    match list {
        None => Decision::Launch,
        Some(ws) => selection(ws, cs, focused),
    }
}

/// The characters of each string.
pub open spec fn texts(s: Seq<String>) -> Seq<Seq<char>> {
    s.map_values(|x: String| x@)
}

/// The addresses of the clients that satisfy every condition, in list order.
pub fn candidate_addresses(clients: &Vec<Client>, conditions: &Vec<MatchCondition>) -> (r: Vec<String>)
    ensures
        texts(r@) == candidates(clients@, conditions@),
{
    let mut r: Vec<String> = Vec::new();
    let mut i: usize = 0;
    while i < clients.len()
        invariant
            i <= clients@.len(),
            texts(r@) == candidates(clients@.subrange(0, i as int), conditions@),
        decreases clients@.len() - i,
    {
        let ghost before = r@;
        assert(clients@.subrange(0, i + 1).drop_last() =~= clients@.subrange(0, i as int));
        if matches_all(conditions, &clients[i]) {
            r.push(clients[i].address.clone());
            assert(texts(r@) =~= texts(before).push(clients@[i as int].address@));
        }
        i = i + 1;
    }
    assert(clients@.subrange(0, clients@.len() as int) =~= clients@);
    r
}

/// The focused window, kept only where it satisfies every condition.
pub fn get_current_matching_window(matchers: &Vec<MatchCondition>, focused: Option<Client>) -> (r: Option<Client>)
    ensures
        r == (match focused {
            Some(f) => if all_hold(matchers@, f) {
                Some(f)
            } else {
                None
            },
            None => None,
        }),
{
    match focused {
        Some(f) => if matches_all(matchers, &f) {
            Some(f)
        } else {
            None
        },
        None => None,
    }
}

/// The first position of `a` in `s`, if any.
fn position_of(s: &Vec<String>, a: &String) -> (r: Option<usize>)
    ensures
        match r {
            Some(i) => is_first_position(texts(s@), a@, i as int),
            None => forall|j: int| 0 <= j < s@.len() ==> s@[j]@ != a@,
        },
{
    let mut i: usize = 0;
    while i < s.len()
        invariant
            i <= s@.len(),
            forall|j: int| 0 <= j < i ==> s@[j]@ != a@,
        decreases s@.len() - i,
    {
        if s[i] == *a {
            return Some(i);
        }
        i = i + 1;
    }
    None
}

/// Decides for a window list, the conditions and the focus query's result:
/// with no matching focus, raise the first candidate or launch; with one,
/// focus the candidate after it (wrapping), or do nothing where it is not a
/// candidate.
pub fn select_action(clients: &Vec<Client>, conditions: &Vec<MatchCondition>, focused: &Option<Client>) -> (r: Action)
    ensures
        r@ == selection(clients@, conditions@, *focused),
{
    let cands = candidate_addresses(clients, conditions);
    let ghost cs = texts(cands@);
    let current = match focused {
        Some(f) => if matches_all(conditions, f) {
            Some(&f.address)
        } else {
            None
        },
        None => None,
    };
    match current {
        None => if cands.len() > 0 {
            Action::Focus(cands[0].clone())
        } else {
            Action::Launch
        },
        Some(a) => match position_of(&cands, a) {
            Some(i) => {
                let next = if i + 1 == cands.len() {
                    0
                } else {
                    i + 1
                };
                proof {
                    let k = first_position(cs, a@);
                    assert(is_first_position(cs, a@, k));
                    if k < i {
                        assert(cs[k] != a@);
                    }
                    if i < k {
                        assert(cs[i as int] != a@);
                    }
                    if i + 1 == cands@.len() {
                        lemma_mod_self_0(cands@.len() as int);
                    } else {
                        lemma_small_mod((i + 1) as nat, cands@.len() as nat);
                    }
                    assert(next as int == (i + 1) % cands@.len() as int);
                }
                Action::Focus(cands[next].clone())
            },
            None => {
                let ghost k = first_position(cs, a@);
                assert(!is_first_position(cs, a@, k)) by {
                    if 0 <= k < cs.len() {
                        assert(cs[k] == cands@[k]@);
                    }
                }
                Action::Stay
            },
        },
    }
}

/// Decides the action for one invocation; `list` is `None` where the
/// window-list query failed, in which case the command is launched.
pub fn decide(list: &Option<Vec<Client>>, conditions: &Vec<MatchCondition>, focused: &Option<Client>) -> (r: Action)
    ensures
        r@ == plan(
            match list {
                Some(ws) => Some(ws@),
                None => None,
            },
            conditions@,
            *focused,
        ),
        list is None ==> r is Launch,
{
    match list {
        Some(clients) => select_action(clients, conditions, focused),
        None => Action::Launch,
    }
}

} // verus!

verus! {

/// No two candidates share an address.
pub open spec fn distinct(s: Seq<Seq<char>>) -> bool {
    forall|i: int, j: int| 0 <= i < s.len() && 0 <= j < s.len() && i != j ==> s[i] != s[j]
}

/// With distinct candidate addresses, a matching focus on the candidate at
/// `i` moves focus to the candidate after it, and from the last to the first.
pub proof fn lemma_focus_cycles(ws: Seq<Client>, cs: Seq<MatchCondition>, f: Client, i: int)
    requires
        distinct(candidates(ws, cs)),
        all_hold(cs, f),
        0 <= i < candidates(ws, cs).len(),
        candidates(ws, cs)[i] == f.address@,
    ensures
        selection(ws, cs, Some(f)) == Decision::Focus(
            candidates(ws, cs)[(i + 1) % candidates(ws, cs).len() as int],
        ),
{
    let s = candidates(ws, cs);
    let a = f.address@;
    assert(is_first_position(s, a, i));
    let k = first_position(s, a);
    assert(is_first_position(s, a, k));
    if k < i {
        assert(s[k] != a);
    }
    if i < k {
        assert(s[i] != a);
    }
    assert(current_match(cs, Some(f)) == Some(a));
    assert(decision(s, Some(a)) == Decision::Focus(s[(k + 1) % s.len() as int]));
}

/// With no candidate, no window is ever focused; with no matching focus
/// either, the command is launched.
pub proof fn lemma_no_candidates_launches(ws: Seq<Client>, cs: Seq<MatchCondition>, focused: Option<Client>)
    requires
        candidates(ws, cs).len() == 0,
    ensures
        !(selection(ws, cs, focused) is Focus),
        current_match(cs, focused) is None ==> selection(ws, cs, focused) == Decision::Launch,
{
}

/// A matching focus whose address is not among the candidates leads to no action.
pub proof fn lemma_vanished_focus_stays(ws: Seq<Client>, cs: Seq<MatchCondition>, f: Client)
    requires
        all_hold(cs, f),
        forall|j: int| 0 <= j < candidates(ws, cs).len() ==> candidates(ws, cs)[j] != f.address@,
    ensures
        selection(ws, cs, Some(f)) == Decision::Stay,
{
}

/// A failed window-list query leads to a launch, whatever the conditions and focus.
pub proof fn lemma_list_failure_launches(cs: Seq<MatchCondition>, focused: Option<Client>)
    ensures
        plan(None, cs, focused) == Decision::Launch,
{
}

} // verus!
