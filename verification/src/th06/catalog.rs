//! The animation files of a game, and what is looked up in them: sprites by
//! their number, scripts by theirs.

use vstd::prelude::*;
use crate::th06::format::{Anm0, Script, ScriptView, SpriteEntry};
use crate::th06::sprite::{AnmBinding, Sprite};

verus! {

/// The position of the first sprite numbered `id` at or after `from`.
pub open spec fn find_entry(entries: Seq<SpriteEntry>, id: u32, from: int) -> Option<int>
    decreases entries.len() - from,
{
    if from < 0 || from >= entries.len() {
        None
    } else if entries[from].index == id {
        Some(from)
    } else {
        find_entry(entries, id, from + 1)
    }
}

/// The first file at or after `from` that holds a sprite numbered `id`, and
/// the position of the first such sprite in it.
pub open spec fn find_sprite(anms: Seq<Anm0>, id: u32, from: int) -> Option<(int, int)>
    decreases anms.len() - from,
{
    if from < 0 || from >= anms.len() {
        None
    } else {
        match find_entry(anms[from].sprites@, id, 0) {
            Some(at) => Some((from, at)),
            None => find_sprite(anms, id, from + 1),
        }
    }
}

/// The first file at or after `from` that holds a script numbered `id`.
pub open spec fn find_script(anms: Seq<Anm0>, id: u8, from: int) -> Option<int>
    decreases anms.len() - from,
{
    if from < 0 || from >= anms.len() {
        None
    } else if anms[from].scripts@.contains_key(id) {
        Some(from)
    } else {
        find_script(anms, id, from + 1)
    }
}

/// The script numbered `id` of the first file that has one.
pub open spec fn script_of(anms: Seq<Anm0>, id: u8) -> Option<ScriptView> {
    match find_script(anms, id, 0) {
        Some(file) => Some(anms[file].scripts@[id]@),
        None => None,
    }
}

/// The sprite after the sprite numbered `id` was looked up for it: bound to
/// the first file that holds one, on the layer of that file's ordinal, with
/// the rectangle of the first such sprite in it. Where no file holds one the
/// sprite is bound to none and its layer is the number of files.
pub open spec fn loaded(sprite: Sprite, anms: Seq<Anm0>, id: u8) -> Sprite {
    match find_sprite(anms, id as u32, 0) {
        Some((file, at)) => {
            let entry = anms[file].sprites@[at];
            Sprite {
                anm: Some(AnmBinding { ordinal: file as u16, inv_size: anms[file].inv_size }),
                layer: file as u16,
                texcoords: [entry.x, entry.y, entry.width, entry.height],
                ..sprite
            }
        },
        None => Sprite { anm: None, layer: anms.len() as u16, ..sprite },
    }
}

/// What `find_entry` finds is the first sprite with that number, and it finds
/// one if there is any.
pub proof fn lemma_find_entry(entries: Seq<SpriteEntry>, id: u32, from: int)
    requires
        0 <= from,
    ensures
        match find_entry(entries, id, from) {
            Some(at) => {
                &&& from <= at < entries.len()
                &&& entries[at].index == id
                &&& forall|j: int| from <= j < at ==> entries[j].index != id
            },
            None => forall|j: int| from <= j < entries.len() ==> entries[j].index != id,
        },
    decreases entries.len() - from,
{
    if from < entries.len() && entries[from].index != id {
        lemma_find_entry(entries, id, from + 1);
    }
}

/// What `find_sprite` finds is the first file with such a sprite and the first
/// such sprite in it, and it finds one if any file has one.
pub proof fn lemma_find_sprite(anms: Seq<Anm0>, id: u32, from: int)
    requires
        0 <= from,
    ensures
        match find_sprite(anms, id, from) {
            Some((file, at)) => {
                &&& from <= file < anms.len()
                &&& 0 <= at < anms[file].sprites@.len()
                &&& anms[file].sprites@[at].index == id
                &&& forall|j: int| 0 <= j < at ==> anms[file].sprites@[j].index != id
                &&& forall|k: int, j: int|
                    from <= k < file && 0 <= j < anms[k].sprites@.len()
                        ==> anms[k].sprites@[j].index != id
            },
            None => forall|k: int, j: int|
                from <= k < anms.len() && 0 <= j < anms[k].sprites@.len()
                    ==> anms[k].sprites@[j].index != id,
        },
    decreases anms.len() - from,
{
    if from < anms.len() {
        lemma_find_entry(anms[from].sprites@, id, 0);
        if find_entry(anms[from].sprites@, id, 0) is None {
            lemma_find_sprite(anms, id, from + 1);
        }
    }
}

/// What `find_script` finds is the first file with such a script, and it
/// finds one if any file has one.
pub proof fn lemma_find_script(anms: Seq<Anm0>, id: u8, from: int)
    requires
        0 <= from,
    ensures
        match find_script(anms, id, from) {
            Some(file) => {
                &&& from <= file < anms.len()
                &&& anms[file].scripts@.contains_key(id)
                &&& forall|k: int| from <= k < file ==> !anms[k].scripts@.contains_key(id)
            },
            None => forall|k: int| from <= k < anms.len() ==> !anms[k].scripts@.contains_key(id),
        },
    decreases anms.len() - from,
{
    if from < anms.len() && !anms[from].scripts@.contains_key(id) {
        lemma_find_script(anms, id, from + 1);
    }
}

/// The animation files that a game draws from, in a fixed order.
pub struct Anms {
    inner: Vec<Anm0>,
}

impl View for Anms {
    type V = Seq<Anm0>;

    closed spec fn view(&self) -> Seq<Anm0> {
        self.inner@
    }
}

impl Anms {
    #[verifier::type_invariant]
    spec fn layers_fit(self) -> bool {
        self.inner.len() <= u16::MAX
    }

    /// A catalog of these files. Their ordinals are layers, so there are at
    /// most 65535 of them.
    pub fn new(anms: Vec<Anm0>) -> (r: Anms)
        requires
            anms.len() <= u16::MAX,
        ensures
            r@ == anms@,
    {
        Anms { inner: anms }
    }

    /// The number of files.
    pub fn len(&self) -> (r: usize)
        ensures
            r == self@.len(),
            r <= u16::MAX,
    {
        proof {
            use_type_invariant(self);
        }
        self.inner.len()
    }

    /// The file with this ordinal.
    pub fn get(&self, ordinal: usize) -> (r: Option<&Anm0>)
        ensures
            r == (if ordinal < self@.len() {
                Some(&self@[ordinal as int])
            } else {
                None
            }),
    {
        if ordinal < self.inner.len() {
            Some(&self.inner[ordinal])
        } else {
            None
        }
    }

    fn entry_position(entries: &Vec<SpriteEntry>, id: u32) -> (r: Option<usize>)
        ensures
            match r {
                Some(at) => at < entries.len() && find_entry(entries@, id, 0) == Some(at as int),
                None => find_entry(entries@, id, 0) is None,
            },
    {
        let mut i: usize = 0;
        while i < entries.len()
            invariant
                i <= entries.len(),
                find_entry(entries@, id, 0) == find_entry(entries@, id, i as int),
            decreases entries.len() - i,
        {
            if entries[i].index == id {
                return Some(i);
            }
            i += 1;
        }
        None
    }

    /// Looks the sprite numbered `id` up for `sprite`: the files are searched
    /// in order, each from its first sprite on, and the first hit counts.
    pub fn load_sprite(&self, sprite: &mut Sprite, id: u8)
        ensures
            *final(sprite) == loaded(*old(sprite), self@, id),
    {
        proof {
            use_type_invariant(self);
        }
        let mut layer: u16 = 0;
        while (layer as usize) < self.inner.len()
            invariant
                layer <= self.inner.len() <= u16::MAX,
                find_sprite(self.inner@, id as u32, 0) == find_sprite(
                    self.inner@,
                    id as u32,
                    layer as int,
                ),
                *sprite == *old(sprite),
            decreases self.inner.len() - layer,
        {
            let anm0 = &self.inner[layer as usize];
            match Self::entry_position(&anm0.sprites, id as u32) {
                Some(at) => {
                    let entry = anm0.sprites[at];
                    sprite.anm = Some(AnmBinding { ordinal: layer, inv_size: anm0.inv_size });
                    sprite.layer = layer;
                    sprite.texcoords = [entry.x, entry.y, entry.width, entry.height];
                    return ;
                },
                None => {},
            }
            layer += 1;
        }
        sprite.anm = None;
        sprite.layer = layer;
    }

    /// Tells whether some file holds a script numbered `id`.
    pub fn has_script(&self, id: u8) -> (r: bool)
        ensures
            r == script_of(self@, id).is_some(),
    {
        let mut i: usize = 0;
        while i < self.inner.len()
            invariant
                i <= self.inner.len(),
                find_script(self.inner@, id, 0) == find_script(self.inner@, id, i as int),
            decreases self.inner.len() - i,
        {
            if self.inner[i].scripts.contains_key(&id) {
                return true;
            }
            i += 1;
        }
        false
    }

    /// A copy of the script numbered `id`, from the first file that holds
    /// one. Some file has to hold one.
    pub fn get_script(&self, id: u8) -> (r: Script)
        requires
            script_of(self@, id).is_some(),
        ensures
            Some(r@) == script_of(self@, id),
    {
        let mut i: usize = 0;
        loop
            invariant
                i <= self.inner.len(),
                find_script(self.inner@, id, 0) is Some,
                find_script(self.inner@, id, 0) == find_script(self.inner@, id, i as int),
            decreases self.inner.len() - i,
        {
            match self.inner[i].scripts.get(&id) {
                Some(script) => {
                    return script.duplicate();
                },
                None => {},
            }
            i += 1;
        }
    }
}

} // verus!
