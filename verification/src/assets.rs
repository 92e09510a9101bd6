use vstd::prelude::*;

verus! {

/// The sprite sheets the game loads.
#[derive(Debug, Clone, Copy, PartialEq, Eq, Hash, Structural)]
pub enum Sheet {
    Copter,
    Signs,
    Passenger,
    Bubble,
}

/// Every sheet, in loading order.
pub fn all_sheets() -> (v: Vec<Sheet>)
    ensures
        v@ == seq![Sheet::Copter, Sheet::Signs, Sheet::Passenger, Sheet::Bubble],
{
    let mut v = Vec::new();
    v.push(Sheet::Copter);
    v.push(Sheet::Signs);
    v.push(Sheet::Passenger);
    v.push(Sheet::Bubble);
    assert(v@ == seq![Sheet::Copter, Sheet::Signs, Sheet::Passenger, Sheet::Bubble]);
    v
}

impl Sheet {
    /// Where the sheet's export lives among the game's assets.
    pub fn path(self) -> (p: &'static str)
        ensures
            self == Sheet::Copter ==> p@ == "sprites/copter42.sheet.json"@,
            self == Sheet::Signs ==> p@ == "sprites/signs.sheet.json"@,
            self == Sheet::Passenger ==> p@ == "sprites/caveman3.sheet.json"@,
            self == Sheet::Bubble ==> p@ == "sprites/bubble.sheet.json"@,
    {
        match self {
            Sheet::Copter => "sprites/copter42.sheet.json",
            Sheet::Signs => "sprites/signs.sheet.json",
            Sheet::Passenger => "sprites/caveman3.sheet.json",
            Sheet::Bubble => "sprites/bubble.sheet.json",
        }
    }
}

} // verus!
