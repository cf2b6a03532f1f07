use vstd::prelude::*;

verus! {

/// `a` comes before `b` in the order of their characters, and the two first
/// differ at position `i` (or `a` ends there and `b` goes on).
pub open spec fn text_lt_at(a: Seq<char>, b: Seq<char>, i: int) -> bool {
    &&& 0 <= i <= a.len()
    &&& i < b.len()
    &&& a.take(i) == b.take(i)
    &&& (i == a.len() || a[i] < b[i])
}

/// `a` comes strictly before `b` in the order of their characters.
pub open spec fn text_lt(a: Seq<char>, b: Seq<char>) -> bool {
    exists|i: int| #[trigger] text_lt_at(a, b, i)
}

/// The names of a catalog's lists are in strictly ascending order, so no
/// name stands twice.
pub open spec fn names_ascending(names: Seq<Seq<char>>) -> bool {
    forall|i: int, j: int| 0 <= i < j < names.len() ==> text_lt(#[trigger] names[i], #[trigger] names[j])
}

pub open spec fn texts(v: Seq<&'static str>) -> Seq<Seq<char>> {
    v.map_values(|s: &'static str| s@)
}

pub open spec fn entry_name(e: (&'static str, Vec<&'static str>)) -> Seq<char> {
    e.0@
}

/// The names of a table's entries, in order.
pub open spec fn entry_names(s: Seq<(&'static str, Vec<&'static str>)>) -> Seq<Seq<char>> {
    s.map_values(|e: (&'static str, Vec<&'static str>)| entry_name(e))
}

pub open spec fn entry_items(e: (&'static str, Vec<&'static str>)) -> Seq<Seq<char>> {
    texts(e.1@)
}

/// The lines of each of a table's entries, in order.
pub open spec fn entry_lines(s: Seq<(&'static str, Vec<&'static str>)>) -> Seq<Seq<Seq<char>>> {
    s.map_values(|e: (&'static str, Vec<&'static str>)| entry_items(e))
}

/// The lines of every list of the catalog, in the order of the names.
pub open spec fn catalog_lines() -> Seq<Seq<Seq<char>>> {
    seq![
        food_restaurant_lines(),
        outdoor_flash_lines(),
        outdoor_pole_lines(),
        outdoor_reflector_lines(),
        poleshow_lines(),
    ]
}

/// A fixed, read-only table of named checklists, each a list of lines,
/// ordered by name.
///
/// The table is a vector kept in ascending order of names rather than an
/// ordered map: vstd's specification of `BTreeMap` holds only for key types
/// whose ordering it models (integers and tuples of them), and says nothing
/// for text keys. The invariant keeps what the map gave: names in order,
/// none twice.
pub struct Catalog {
    lists: Vec<(&'static str, Vec<&'static str>)>,
}

impl Catalog {
    /// The names of the lists, in order.
    pub closed spec fn names_view(&self) -> Seq<Seq<char>> {
        entry_names(self.lists@)
    }

    /// The lines of each list, in the order of the names.
    pub closed spec fn items_view(&self) -> Seq<Seq<Seq<char>>> {
        entry_lines(self.lists@)
    }

    #[verifier::type_invariant]
    spec fn inv(&self) -> bool {
        names_ascending(self.names_view())
    }

    /// The catalog of photography checklists.
    pub fn new() -> (r: Catalog)
        ensures
            r.names_view() == seq![
                "food restaurant"@,
                "outdoor flash"@,
                "outdoor pole"@,
                "outdoor reflector"@,
                "poleshow"@,
            ],
            r.items_view() == catalog_lines(),
            names_ascending(r.names_view()),
    {
        let mut lists: Vec<(&'static str, Vec<&'static str>)> = Vec::new();
        lists.push(("food restaurant", food_restaurant_items()));
        lists.push(("outdoor flash", outdoor_flash_items()));
        lists.push(("outdoor pole", outdoor_pole_items()));
        lists.push(("outdoor reflector", outdoor_reflector_items()));
        lists.push(("poleshow", poleshow_items()));
        proof {
            lemma_catalog_names_ascending();
            assert(entry_lines(lists@) =~= catalog_lines());
            assert(entry_names(lists@) =~= seq![
                "food restaurant"@,
                "outdoor flash"@,
                "outdoor pole"@,
                "outdoor reflector"@,
                "poleshow"@,
            ]);
        }
        Catalog { lists }
    }

    /// The names of the lists, in ascending order.
    pub fn names(&self) -> (r: Vec<&'static str>)
        ensures
            texts(r@) == self.names_view(),
            names_ascending(texts(r@)),
    {
        proof {
            use_type_invariant(self);
        }
        let mut r: Vec<&'static str> = Vec::new();
        let mut i: usize = 0;
        while i < self.lists.len()
            invariant
                i <= self.lists@.len(),
                texts(r@) == self.names_view().take(i as int),
            decreases self.lists@.len() - i,
        {
            let ghost before = r@;
            r.push(self.lists[i].0);
            assert(texts(r@) =~= texts(before).push(self.lists@[i as int].0@));
            assert(self.names_view().take(i + 1) =~= self.names_view().take(i as int).push(
                self.lists@[i as int].0@,
            ));
            i = i + 1;
        }
        assert(self.names_view().take(i as int) =~= self.names_view());
        r
    }

    /// The lines of the list named `name`, or `None` where no list has that name.
    pub fn get(&self, name: &str) -> (r: Option<&Vec<&'static str>>)
        ensures
            match r {
                Some(l) => exists|i: int|
                    0 <= i < self.names_view().len() && #[trigger] self.names_view()[i] == name@
                        && texts(l@) == self.items_view()[i],
                None => forall|i: int|
                    0 <= i < self.names_view().len() ==> #[trigger] self.names_view()[i] != name@,
            },
    {
        let key = name.to_owned();
        let mut i: usize = 0;
        while i < self.lists.len()
            invariant
                i <= self.lists@.len(),
                key@ == name@,
                forall|k: int| 0 <= k < i ==> #[trigger] self.names_view()[k] != name@,
            decreases self.lists@.len() - i,
        {
            let n = self.lists[i].0.to_owned();
            if n.eq(&key) {
                assert(self.names_view()[i as int] == name@);
                return Some(&self.lists[i].1);
            }
            i = i + 1;
        }
        None
    }
}

proof fn lemma_catalog_names_ascending()
    ensures
        names_ascending(
            seq![
                "food restaurant"@,
                "outdoor flash"@,
                "outdoor pole"@,
                "outdoor reflector"@,
                "poleshow"@,
            ],
        ),
{
    let f = "food restaurant"@;
    let of = "outdoor flash"@;
    let op = "outdoor pole"@;
    let or = "outdoor reflector"@;
    let p = "poleshow"@;
    reveal_strlit("food restaurant");
    reveal_strlit("outdoor flash");
    reveal_strlit("outdoor pole");
    reveal_strlit("outdoor reflector");
    reveal_strlit("poleshow");
    assert(f.take(0) =~= of.take(0));
    assert(f.take(0) =~= op.take(0));
    assert(f.take(0) =~= or.take(0));
    assert(f.take(0) =~= p.take(0));
    assert(of.take(0) =~= p.take(0));
    assert(op.take(0) =~= p.take(0));
    assert(or.take(0) =~= p.take(0));
    assert(text_lt_at(f, of, 0));
    assert(text_lt_at(f, op, 0));
    assert(text_lt_at(f, or, 0));
    assert(text_lt_at(f, p, 0));
    assert(text_lt_at(of, p, 0));
    assert(text_lt_at(op, p, 0));
    assert(text_lt_at(or, p, 0));
    assert(of.take(8) =~= op.take(8));
    assert(of.take(8) =~= or.take(8));
    assert(op.take(8) =~= or.take(8));
    assert(text_lt_at(of, op, 8));
    assert(text_lt_at(of, or, 8));
    assert(text_lt_at(op, or, 8));
}

/// The lines of the "food restaurant" list.
pub open spec fn food_restaurant_lines() -> Seq<Seq<char>> {
    seq![
        "eq: X-H1"@,
        "eq: 35"@,
        "eq: 16-55"@,
        "eq: ? small reflector if available"@,
        "Set RAW+High"@,
        "WB is critically important"@,
        "F2.5 or greater"@,
        "IBIS on"@,
        "ISO auto 2 (6400)"@,
        "Low and High angles (never eye level)"@,
        "Close up on details"@,
        "Rotate plates multiple times for possible angles"@,
        "Swirl wine to light sources"@,
        "Use available reflections to create effects (IE bottles)"@,
        "Low angle room shots"@,
        "Use things to block light"@,
        "Shoot in shade, sunlight best"@,
        "Look for colour"@,
        "Add items like cutlery, glasses, cloths, good background"@,
        "Add garnishes to dishes"@,
        "Dont tilt the camera"@,
        "Round plates are better"@,
        "Have someone interact with food (spoon etc)"@,
    ]
}

fn food_restaurant_items() -> (r: Vec<&'static str>)
    ensures
        texts(r@) == food_restaurant_lines(),
{
    let r: Vec<&'static str> = vec![
        "eq: X-H1",
        "eq: 35",
        "eq: 16-55",
        "eq: ? small reflector if available",
        "Set RAW+High",
        "WB is critically important",
        "F2.5 or greater",
        "IBIS on",
        "ISO auto 2 (6400)",
        "Low and High angles (never eye level)",
        "Close up on details",
        "Rotate plates multiple times for possible angles",
        "Swirl wine to light sources",
        "Use available reflections to create effects (IE bottles)",
        "Low angle room shots",
        "Use things to block light",
        "Shoot in shade, sunlight best",
        "Look for colour",
        "Add items like cutlery, glasses, cloths, good background",
        "Add garnishes to dishes",
        "Dont tilt the camera",
        "Round plates are better",
        "Have someone interact with food (spoon etc)",
    ];
    assert(texts(r@) =~= food_restaurant_lines());
    r
}

/// The lines of the "outdoor flash" list.
pub open spec fn outdoor_flash_lines() -> Seq<Seq<char>> {
    seq![
        "eq: flash + umbrella + light stand"@,
        "eq: flash trigger"@,
        "eq: UV Filter + CPL Filter"@,
        "eq: ? tripod"@,
        "eq: ? reflector"@,
        "IBIS off"@,
        "Set RAW+High"@,
        "WB to daylight/shade"@,
        "WB based on grey card"@,
        "Shutter based on flash sync (180 or 250)"@,
        "Control BG light no flash, then add flash"@,
        "Only ISO/F control flash, not shutter"@,
        "Use flash manual (not TTL)"@,
        "UV filter or CPL filter"@,
        "Look for potential reflections"@,
    ]
}

fn outdoor_flash_items() -> (r: Vec<&'static str>)
    ensures
        texts(r@) == outdoor_flash_lines(),
{
    let r: Vec<&'static str> = vec![
        "eq: flash + umbrella + light stand",
        "eq: flash trigger",
        "eq: UV Filter + CPL Filter",
        "eq: ? tripod",
        "eq: ? reflector",
        "IBIS off",
        "Set RAW+High",
        "WB to daylight/shade",
        "WB based on grey card",
        "Shutter based on flash sync (180 or 250)",
        "Control BG light no flash, then add flash",
        "Only ISO/F control flash, not shutter",
        "Use flash manual (not TTL)",
        "UV filter or CPL filter",
        "Look for potential reflections",
    ];
    assert(texts(r@) =~= outdoor_flash_lines());
    r
}

/// The lines of the "outdoor pole" list.
pub open spec fn outdoor_pole_lines() -> Seq<Seq<char>> {
    seq![
        "eq: X-H1 + 50-140"@,
        "eq: X-T10 + 35 (candid)"@,
        "eq: flash + umbrella + light stand"@,
        "eq: flash trigger"@,
        "eq: UV Filter + CPL Filter"@,
        "eq: ? tripod"@,
        "eq: ? reflector"@,
        "Set RAW+High"@,
        "IBIS off"@,
        "WB to daylight/shade"@,
        "WB based on grey card"@,
        "Shutter based on flash sync (180 or 250)"@,
        "Control BG light no flash, then add flash"@,
        "Only ISO/F control flash, not shutter"@,
        "Use flash manual (not TTL)"@,
        "UV filter or CPL filter"@,
        "Look for potential reflections"@,
        "clear BG behind pole (simple-exlusion)"@,
        "Avoid floor (low angle)"@,
        "50mm or higher length"@,
        "shoot wide full BG + pole"@,
        "Flash high or low to sides (fill or spotlight)"@,
        "Flash opposite side to sun"@,
        "Reflector could be used"@,
    ]
}

fn outdoor_pole_items() -> (r: Vec<&'static str>)
    ensures
        texts(r@) == outdoor_pole_lines(),
{
    let r: Vec<&'static str> = vec![
        "eq: X-H1 + 50-140",
        "eq: X-T10 + 35 (candid)",
        "eq: flash + umbrella + light stand",
        "eq: flash trigger",
        "eq: UV Filter + CPL Filter",
        "eq: ? tripod",
        "eq: ? reflector",
        "Set RAW+High",
        "IBIS off",
        "WB to daylight/shade",
        "WB based on grey card",
        "Shutter based on flash sync (180 or 250)",
        "Control BG light no flash, then add flash",
        "Only ISO/F control flash, not shutter",
        "Use flash manual (not TTL)",
        "UV filter or CPL filter",
        "Look for potential reflections",
        "clear BG behind pole (simple-exlusion)",
        "Avoid floor (low angle)",
        "50mm or higher length",
        "shoot wide full BG + pole",
        "Flash high or low to sides (fill or spotlight)",
        "Flash opposite side to sun",
        "Reflector could be used",
    ];
    assert(texts(r@) =~= outdoor_pole_lines());
    r
}

/// The lines of the "outdoor reflector" list.
pub open spec fn outdoor_reflector_lines() -> Seq<Seq<char>> {
    seq![
        "eq: reflector"@,
        "IBIS off"@,
        "White reflector bright sun/direct"@,
        "Silver/Gold for shade or spotlight"@,
        "WB to ambient no reflector"@,
        "CPL or UV filter"@,
        "Set RAW+High"@,
    ]
}

fn outdoor_reflector_items() -> (r: Vec<&'static str>)
    ensures
        texts(r@) == outdoor_reflector_lines(),
{
    let r: Vec<&'static str> = vec![
        "eq: reflector",
        "IBIS off",
        "White reflector bright sun/direct",
        "Silver/Gold for shade or spotlight",
        "WB to ambient no reflector",
        "CPL or UV filter",
        "Set RAW+High",
    ];
    assert(texts(r@) =~= outdoor_reflector_lines());
    r
}

/// The lines of the "poleshow" list.
pub open spec fn poleshow_lines() -> Seq<Seq<char>> {
    seq![
        "eq: X-H1"@,
        "eq: X-T10"@,
        "eq: 50-140"@,
        "eq: 16-55"@,
        "eq: UV Filters"@,
        "eq: Ear Plugs"@,
        "eq: Neck/sholder stap/wrist strap"@,
        "IBIS off"@,
        "Set HIGH only"@,
        "50-140 OIS off"@,
        "Dist < 10m: 16-55mm primary"@,
        "Dist < 10m: Aperture to f/3.6 or higher"@,
        "Dist > 10m: 50-140mm primary"@,
        "Dist > 10m: Aperture 2.8 to 3.2"@,
        "Shutter to 1/250 or faster (use mode T)"@,
        "ISO to as needed by shutter (1600 - 6400)"@,
        "White Balance based on stage neutral (grey card)"@,
        "White Balance alt - incandesent or fluro 2"@,
        "White Balange - check histograms for even colour, or +r -b for warmth"@,
        "AF to C"@,
        "AF track to 6"@,
        "AF to centre points (phase)"@,
        "AF set in both orientations (X-H1)"@,
        "Focus center"@,
        "UV filter"@,
        "Land scape often better than portrait"@,
        "Synchronise clocks"@,
        "Use body custom 2 (pole) (NR + Sharp)"@,
        "Shoot wide"@,
        "Shoot angle from low"@,
        "Back button AF"@,
        "Get run sheet for image tagging"@,
        "Group photos send at end of event"@,
    ]
}

fn poleshow_items() -> (r: Vec<&'static str>)
    ensures
        texts(r@) == poleshow_lines(),
{
    let r: Vec<&'static str> = vec![
        "eq: X-H1",
        "eq: X-T10",
        "eq: 50-140",
        "eq: 16-55",
        "eq: UV Filters",
        "eq: Ear Plugs",
        "eq: Neck/sholder stap/wrist strap",
        "IBIS off",
        "Set HIGH only",
        "50-140 OIS off",
        "Dist < 10m: 16-55mm primary",
        "Dist < 10m: Aperture to f/3.6 or higher",
        "Dist > 10m: 50-140mm primary",
        "Dist > 10m: Aperture 2.8 to 3.2",
        "Shutter to 1/250 or faster (use mode T)",
        "ISO to as needed by shutter (1600 - 6400)",
        "White Balance based on stage neutral (grey card)",
        "White Balance alt - incandesent or fluro 2",
        "White Balange - check histograms for even colour, or +r -b for warmth",
        "AF to C",
        "AF track to 6",
        "AF to centre points (phase)",
        "AF set in both orientations (X-H1)",
        "Focus center",
        "UV filter",
        "Land scape often better than portrait",
        "Synchronise clocks",
        "Use body custom 2 (pole) (NR + Sharp)",
        "Shoot wide",
        "Shoot angle from low",
        "Back button AF",
        "Get run sheet for image tagging",
        "Group photos send at end of event",
    ];
    assert(texts(r@) =~= poleshow_lines());
    r
}

} // verus!
