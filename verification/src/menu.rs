use vstd::prelude::*;

verus! {

/// An event of the user interface: whether it is the end of a click, and the
/// id of the entity it targets.
#[derive(Clone, Copy, Debug, PartialEq, Eq, Structural)]
pub struct UiClick {
    pub click_stop: bool,
    pub target: u32,
}

/// The name of the first element of the interface that belongs to the entity
/// `id`, if any.
pub open spec fn element_name(elements: Seq<(u32, String)>, id: u32) -> Option<Seq<char>>
    decreases elements.len(),
{
    if elements.len() == 0 {
        None
    } else if elements[0].0 == id {
        Some(elements[0].1@)
    } else {
        element_name(elements.drop_first(), id)
    }
}

/// The name of the element that the last finished click among the first `n`
/// events hit, if any click hit an element.
pub open spec fn last_clicked(events: Seq<UiClick>, elements: Seq<(u32, String)>, n: nat) -> Option<Seq<char>>
    decreases n,
{
    if n == 0 {
        None
    } else {
        let e = events[n - 1];
        if e.click_stop && element_name(elements, e.target) is Some {
            element_name(elements, e.target)
        } else {
            last_clicked(events, elements, (n - 1) as nat)
        }
    }
}

fn find_element(elements: &Vec<(u32, String)>, id: u32) -> (res: Option<String>)
    ensures
        match res {
            Some(r) => element_name(elements@, id) == Some(r@),
            None => element_name(elements@, id) is None,
        },
{
    let mut i: usize = 0;
    proof {
        assert(elements@.skip(0) =~= elements@);
    }
    while i < elements.len()
        invariant
            i <= elements@.len(),
            element_name(elements@, id) == element_name(elements@.skip(i as int), id),
        decreases elements@.len() - i,
    {
        if elements[i].0 == id {
            return Some(elements[i].1.clone());
        }
        proof {
            assert(elements@.skip(i as int).drop_first() =~= elements@.skip(i + 1));
        }
        i = i + 1;
    }
    None
}

/// The name of the element of a menu that the user clicked last among the
/// events read, which the menu then acts on; `None` when no click hit one.
/// `elements` pairs each element's entity id with its name.
pub fn clicked_element(events: &Vec<UiClick>, elements: &Vec<(u32, String)>) -> (res: Option<String>)
    ensures
        match res {
            Some(r) => last_clicked(events@, elements@, events@.len()) == Some(r@),
            None => last_clicked(events@, elements@, events@.len()) is None,
        },
{
    let mut clicked: Option<String> = None;
    let mut i: usize = 0;
    while i < events.len()
        invariant
            i <= events@.len(),
            match clicked {
                Some(r) => last_clicked(events@, elements@, i as nat) == Some(r@),
                None => last_clicked(events@, elements@, i as nat) is None,
            },
        decreases events@.len() - i,
    {
        let e = events[i];
        if e.click_stop {
            match find_element(elements, e.target) {
                Some(name) => {
                    clicked = Some(name);
                },
                None => {},
            }
        }
        i = i + 1;
    }
    clicked
}

} // verus!
