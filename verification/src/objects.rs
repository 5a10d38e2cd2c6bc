//! Base objects of the game world: a name and a list of tags.

use vstd::prelude::*;
use crate::text::{concat, text};

verus! {

/// The model of a [`BaseObject`]: its name and tags, in order.
pub ghost struct ObjectView {
    pub name: Seq<char>,
    pub tags: Seq<Seq<char>>,
}

/// The texts of a sequence of strings.
pub open spec fn texts(s: Seq<String>) -> Seq<Seq<char>> {
    s.map_values(|x: String| x@)
}

/// A named object of the game world, with tags.
#[derive(Debug)]
pub struct BaseObject {
    name: String,
    tags: Vec<String>,
}

impl View for BaseObject {
    type V = ObjectView;

    closed spec fn view(&self) -> ObjectView {
        ObjectView { name: self.name@, tags: texts(self.tags@) }
    }
}

impl BaseObject {
    /// An object named `name`, with no tags.
    pub fn new(name: String) -> (r: BaseObject)
        ensures
            r@.name == name@,
            r@.tags == Seq::<Seq<char>>::empty(),
    {
        let r = BaseObject { name, tags: Vec::new() };
        assert(r@.tags =~= Seq::<Seq<char>>::empty());
        r
    }

    /// The message that the object began play.
    pub fn begin_play(&self) -> (r: String)
        ensures
            r@ == "Object '"@ + self@.name + "' began play"@,
    {
        let mut r = concat("Object '", self.name.as_str());
        r.append("' began play");
        r
    }

    /// The message that the object ended play.
    pub fn end_play(&self) -> (r: String)
        ensures
            r@ == "Object '"@ + self@.name + "' ended play"@,
    {
        let mut r = concat("Object '", self.name.as_str());
        r.append("' ended play");
        r
    }

    /// The object's name.
    pub fn get_name(&self) -> (r: &str)
        ensures
            r@ == self@.name,
    {
        self.name.as_str()
    }

    /// Renames the object.
    pub fn set_name(&mut self, name: String)
        ensures
            final(self)@ == (ObjectView { name: name@, ..old(self)@ }),
    {
        self.name = name;
    }

    /// Adds a tag at the end of the tag list.
    pub fn add_tag(&mut self, tag: String)
        ensures
            final(self)@ == (ObjectView { tags: old(self)@.tags.push(tag@), ..old(self)@ }),
    {
        let ghost t = tag@;
        self.tags.push(tag);
        assert(texts(self.tags@) =~= texts(old(self).tags@).push(t));
    }

    /// Whether the object carries the tag.
    pub fn has_tag(&self, tag: &str) -> (r: bool)
        ensures
            r == self@.tags.contains(tag@),
    {
        let wanted = text(tag);
        let mut i: usize = 0;
        while i < self.tags.len()
            invariant
                i <= self.tags.len(),
                wanted@ == tag@,
                forall|j: int| 0 <= j < i ==> #[trigger] self.tags@[j]@ != tag@,
            decreases self.tags.len() - i,
        {
            if self.tags[i] == wanted {
                proof {
                    assert(self@.tags[i as int] == tag@);
                }
                return true;
            }
            i = i + 1;
        }
        proof {
            if self@.tags.contains(tag@) {
                let j = choose|j: int| 0 <= j < self@.tags.len() && self@.tags[j] == tag@;
                assert(self.tags@[j]@ == tag@);
            }
        }
        false
    }

    /// The object's tags, in the order they were added.
    pub fn get_tags(&self) -> (r: &[String])
        ensures
            texts(r@) == self@.tags,
    {
        self.tags.as_slice()
    }
}

} // verus!
