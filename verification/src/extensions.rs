//! The media extensions that a set of decoder plugins supports.

use vstd::prelude::*;

use crate::text::{entries, names, split_entries, texts};

verus! {

/// What a loaded plugin is for.
#[derive(Clone, Copy, Debug, PartialEq, Eq, Structural)]
pub enum PluginKind {
    /// It decodes media.
    Playback,
    /// It does something else.
    Other,
}

/// One loaded plugin, as far as the player looks into it.
#[derive(Debug)]
pub struct LoadedPlugin {
    /// What it is for.
    pub kind: PluginKind,
    /// The extensions it says it supports, as one list, when it says so.
    pub extensions: Option<String>,
}

/// Whether `plugin` decodes media of the extension `extension`.
pub open spec fn supports(plugin: LoadedPlugin, extension: Seq<char>) -> bool {
    &&& plugin.kind is Playback
    &&& plugin.extensions is Some
    &&& entries(plugin.extensions->0@).contains(extension)
}

/// The extensions that some plugin of the set decodes.
pub open spec fn extension_set(plugins: Seq<LoadedPlugin>) -> Set<Seq<char>> {
    Set::new(
        |extension: Seq<char>|
            exists|i: int| 0 <= i < plugins.len() && supports(#[trigger] plugins[i], extension),
    )
}

/// The extensions that some plugin of the set decodes, each once.
pub fn supported_extensions(plugins: &Vec<LoadedPlugin>) -> (r: Vec<String>)
    ensures
        texts(r@).no_duplicates(),
        texts(r@).to_set() == extension_set(plugins@),
{
    let mut r: Vec<String> = Vec::new();
    for i in 0..plugins.len()
        invariant
            texts(r@).no_duplicates(),
            forall|e: Seq<char>| #[trigger]
                texts(r@).contains(e) <==> extension_set(plugins@.take(i as int)).contains(e),
    {
        let ghost known = texts(r@);
        let ghost earlier = plugins@.take(i as int);
        let ghost now = plugins@.take(i + 1);
        let ghost plugin = plugins@[i as int];
        let mut listed: Vec<String> = Vec::new();
        if let PluginKind::Playback = plugins[i].kind {
            if let Some(list) = &plugins[i].extensions {
                listed = split_entries(list.as_str());
            }
        }
        assert forall|e: Seq<char>| #[trigger]
            texts(listed@).contains(e) <==> supports(plugin, e) by {}
        for j in 0..listed.len()
            invariant
                texts(r@).no_duplicates(),
                forall|e: Seq<char>| #[trigger]
                    texts(r@).contains(e) <==> known.contains(e) || texts(listed@).take(
                        j as int,
                    ).contains(e),
        {
            let ghost was = texts(r@);
            let ghost all = texts(listed@);
            let ghost entry = all[j as int];
            assert(all.take(j + 1) == all.take(j as int).push(entry));
            assert forall|e: Seq<char>| #[trigger]
                all.take(j + 1).contains(e) <==> all.take(j as int).contains(e) || e == entry by {
                if all.take(j as int).contains(e) {
                    let k = choose|k: int|
                        0 <= k < all.take(j as int).len() && all.take(j as int)[k] == e;
                    assert(all.take(j + 1)[k] == e);
                }
                assert(all.take(j + 1)[j as int] == entry);
            }
            if !names(&r, &listed[j]) {
                r.push(listed[j].clone());
                assert(texts(r@) == was.push(entry));
                assert forall|e: Seq<char>| #[trigger]
                    texts(r@).contains(e) <==> was.contains(e) || e == entry by {
                    if was.contains(e) {
                        let k = choose|k: int| 0 <= k < was.len() && was[k] == e;
                        assert(texts(r@)[k] == e);
                    }
                    assert(texts(r@)[was.len() as int] == entry);
                }
            }
        }
        assert(texts(listed@).take(listed@.len() as int) == texts(listed@));
        assert forall|e: Seq<char>| #[trigger]
            texts(r@).contains(e) <==> extension_set(now).contains(e) by {
            if extension_set(earlier).contains(e) {
                let k = choose|k: int| 0 <= k < earlier.len() && supports(#[trigger] earlier[k], e);
                assert(supports(now[k], e));
            }
            if supports(plugin, e) {
                assert(supports(now[i as int], e));
            }
            if extension_set(now).contains(e) {
                let k = choose|k: int| 0 <= k < now.len() && supports(#[trigger] now[k], e);
                if k < i {
                    assert(supports(earlier[k], e));
                }
            }
        }
    }
    assert(plugins@.take(plugins@.len() as int) == plugins@);
    assert(texts(r@).to_set() =~= extension_set(plugins@));
    r
}

} // verus!
