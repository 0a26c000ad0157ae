//! Places in the filesystem, as the text they are built from.

use vstd::prelude::*;
use vstd::string::StringExecFns;

verus! {

/// A place in the filesystem: a base directory, as the environment gives it,
/// and the names to descend through from there, outermost first. The library
/// never joins the two: how names are joined to a directory is the
/// platform's rule, and the caller applies it.
#[derive(Clone, Debug, PartialEq, Eq)]
pub struct Location {
    pub base: String,
    pub segments: Vec<String>,
}

/// A place in the filesystem, as plain mathematical values.
pub struct LocationView {
    pub base: Seq<char>,
    pub segments: Seq<Seq<char>>,
}

/// The characters of each text of a list, in order.
pub open spec fn texts(list: Seq<String>) -> Seq<Seq<char>> {
    Seq::new(list.len(), |i: int| list[i]@)
}

impl View for Location {
    type V = LocationView;

    open spec fn view(&self) -> LocationView {
        LocationView { base: self.base@, segments: texts(self.segments@) }
    }
}

impl Location {
    /// The base directory itself.
    pub fn at(base: &str) -> (place: Location)
        ensures
            place@ == (LocationView { base: base@, segments: Seq::empty() }),
    {
        let place = Location { base: String::from_str(base), segments: Vec::new() };
        proof {
            assert(texts(place.segments@) =~= Seq::<Seq<char>>::empty());
        }
        place
    }

    /// The place one name further down.
    pub fn child(self, name: &str) -> (place: Location)
        ensures
            place@ == (LocationView { base: self@.base, segments: self@.segments.push(name@) }),
    {
        let ghost before = self@.segments;
        let mut place = self;
        place.segments.push(String::from_str(name));
        proof {
            assert(texts(place.segments@) =~= before.push(name@));
        }
        place
    }

    /// The innermost name, where there is one.
    pub fn leaf(&self) -> (name: Option<&str>)
        ensures
            match name {
                Some(n) => self@.segments.len() > 0 && n@ == self@.segments.last(),
                None => self@.segments.len() == 0,
            },
    {
        let n = self.segments.len();
        if n == 0 {
            None
        } else {
            Some(self.segments[n - 1].as_str())
        }
    }
}

} // verus!
