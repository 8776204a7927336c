use vstd::prelude::*;

verus! {

/// The eight typing categories a combatant can have, numbered 0 to 7.
#[derive(Clone, Copy, Debug, PartialEq, Eq, Structural)]
pub enum Element {
    Scav,
    Growth,
    Ember,
    Flood,
    Rad,
    Robot,
    Clean,
    Filth,
}

/// Number of elements; every element index is below it.
pub const ELEMENT_COUNT: u8 = 8;

/// The wire index of an element.
pub open spec fn element_index(e: Element) -> u8 {
    match e {
        Element::Scav => 0,
        Element::Growth => 1,
        Element::Ember => 2,
        Element::Flood => 3,
        Element::Rad => 4,
        Element::Robot => 5,
        Element::Clean => 6,
        Element::Filth => 7,
    }
}

/// The element with a given wire index, if the index names one.
pub open spec fn element_of_index(n: int) -> Option<Element> {
    if n == 0 {
        Some(Element::Scav)
    } else if n == 1 {
        Some(Element::Growth)
    } else if n == 2 {
        Some(Element::Ember)
    } else if n == 3 {
        Some(Element::Flood)
    } else if n == 4 {
        Some(Element::Rad)
    } else if n == 5 {
        Some(Element::Robot)
    } else if n == 6 {
        Some(Element::Clean)
    } else if n == 7 {
        Some(Element::Filth)
    } else {
        None
    }
}

impl Element {
    /// The wire index of this element, in `0..8`.
    pub fn index(&self) -> (r: u8)
        ensures
            r == element_index(*self),
            r < ELEMENT_COUNT,
    {
        match self {
            Element::Scav => 0,
            Element::Growth => 1,
            Element::Ember => 2,
            Element::Flood => 3,
            Element::Rad => 4,
            Element::Robot => 5,
            Element::Clean => 6,
            Element::Filth => 7,
        }
    }
}

/// Turns a received element index into an element; an index outside `0..8`
/// names none and gives `None`.
pub fn convert_num_to_element(num: usize) -> (r: Option<Element>)
    ensures
        r == element_of_index(num as int),
        r is Some <==> num < 8,
        r matches Some(e) ==> element_index(e) == num,
{
    match num {
        0 => Some(Element::Scav),
        1 => Some(Element::Growth),
        2 => Some(Element::Ember),
        3 => Some(Element::Flood),
        4 => Some(Element::Rad),
        5 => Some(Element::Robot),
        6 => Some(Element::Clean),
        7 => Some(Element::Filth),
        _ => None,
    }
}

} // verus!
