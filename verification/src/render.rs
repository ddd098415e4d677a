//! The renderer-side state the inventory screen reads: the texture registry
//! with its placeholder flags, the safe viewport, and the HUD icon scale,
//! together with the icon-texture fallback resolution.

use vstd::prelude::*;

verus! {

/// A texture handle as the registry returns it: `dummy` marks a registered
/// placeholder standing in for a genuinely missing asset.
#[derive(Clone, Copy, PartialEq, Eq, Structural, Debug)]
pub struct Texture {
    pub dummy: bool,
}

/// One entry of the renderer's texture registry: a texture identifier and
/// the placeholder flag of the texture registered under it.
pub struct TextureEntry {
    pub name: String,
    pub dummy: bool,
}

/// What a lookup of `name` in `entries` yields: `None` when no entry carries
/// the name, otherwise the placeholder flag of the first entry that does.
pub open spec fn spec_lookup(entries: Seq<TextureEntry>, name: Seq<char>) -> Option<bool>
    decreases entries.len(),
{
    if entries.len() == 0 {
        None
    } else if entries[0].name@ == name {
        Some(entries[0].dummy)
    } else {
        spec_lookup(entries.drop_first(), name)
    }
}

/// The texture identifier the icon resolver binds for a candidate pair:
/// the primary when the registry has it as a real texture, the fallback when
/// the primary is absent or only a placeholder.
pub open spec fn spec_resolved(
    entries: Seq<TextureEntry>,
    primary: Seq<char>,
    fallback: Seq<char>,
) -> Seq<char> {
    match spec_lookup(entries, primary) {
        Some(dummy) => if dummy {
            fallback
        } else {
            primary
        },
        None => fallback,
    }
}

/// The renderer's texture registry, looked up by texture identifier; the
/// earliest entry under a name wins, and `register` keeps names unique.
pub struct TextureRegistry {
    entries: Vec<TextureEntry>,
}

impl TextureRegistry {
    /// The registry's entries, in registration order.
    pub closed spec fn entries(&self) -> Seq<TextureEntry> {
        self.entries@
    }

    pub open spec fn lookup_spec(&self, name: Seq<char>) -> Option<bool> {
        spec_lookup(self.entries(), name)
    }

    pub fn new() -> (r: TextureRegistry)
        ensures
            r.entries() == Seq::<TextureEntry>::empty(),
    {
        TextureRegistry { entries: Vec::new() }
    }

    /// Register a texture under `name`; `dummy` marks it as a placeholder.
    pub fn register(&mut self, name: String, dummy: bool)
        requires
            old(self).lookup_spec(name@) is None,
        ensures
            final(self).entries() == old(self).entries().push((TextureEntry { name, dummy })),
    {
        self.entries.push(TextureEntry { name, dummy });
    }

    /// The registry lookup the renderer offers: the handle registered under
    /// `name`, or `None` when the texture is absent.
    pub fn get_texture_optional(&self, name: &String) -> (r: Option<Texture>)
        ensures
            (r is Some) == (self.lookup_spec(name@) is Some),
            r is Some ==> r.unwrap().dummy == self.lookup_spec(name@).unwrap(),
    {
        let n = self.entries.len();
        let mut i: usize = 0;
        proof {
            assert(self.entries@.skip(0) =~= self.entries@);
        }
        while i < n
            invariant
                n == self.entries@.len(),
                i <= n,
                spec_lookup(self.entries@, name@) == spec_lookup(
                    self.entries@.skip(i as int),
                    name@,
                ),
            decreases n - i,
        {
            let entry = &self.entries[i];
            if entry.name == *name {
                proof {
                    assert(self.entries@.skip(i as int)[0] == self.entries@[i as int]);
                }
                return Some(Texture { dummy: entry.dummy });
            }
            proof {
                assert(self.entries@.skip(i as int).drop_first() =~= self.entries@.skip(
                    i as int + 1,
                ));
                assert(self.entries@.skip(i as int)[0] == self.entries@[i as int]);
            }
            i = i + 1;
        }
        proof {
            assert(self.entries@.skip(n as int) =~= Seq::<TextureEntry>::empty());
        }
        None
    }
}

/// The renderer state this screen consumes: texture registry, the safe
/// (non-letterboxed) viewport dimensions, and the HUD icon scale factor.
pub struct Renderer {
    pub textures: TextureRegistry,
    pub safe_width: u32,
    pub safe_height: u32,
    pub icon_scale: u32,
}

/// Icon resolution: bind `primary` where the registry has it as a real
/// texture; fall back to `fallback` where it is absent or only a placeholder.
pub fn resolve_texture<'a>(
    registry: &TextureRegistry,
    primary: &'a String,
    fallback: &'a String,
) -> (r: &'a String)
    ensures
        r@ == spec_resolved(registry.entries(), primary@, fallback@),
        registry.lookup_spec(primary@) is None ==> r@ == fallback@,
        registry.lookup_spec(primary@) == Some(true) ==> r@ == fallback@,
        registry.lookup_spec(primary@) == Some(false) ==> r@ == primary@,
{
    match registry.get_texture_optional(primary) {
        Some(tex) => if tex.dummy {
            fallback
        } else {
            primary
        },
        None => fallback,
    }
}

} // verus!
