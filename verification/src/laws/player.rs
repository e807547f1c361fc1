//! The player: its session, its position and its extension index.

use vstd::prelude::*;

use crate::extensions::{extension_set, supports, LoadedPlugin, PluginKind};
use crate::laws::text::{between, the_entries_are_what_stands_between_separators};
use crate::player::{
    normal, playback_count, undotted, BackendView, PlaybackStatus, SessionView,
};
use crate::text::{entries, lower, lowercase, pieces, trim, Cut};

verus! {

/// A mount starts over: whatever was mounted before, the session is that of
/// the opened plugin and media, and plays from its first frame.
pub proof fn a_mount_starts_over(
    backend: BackendView,
    plugin_name: Seq<char>,
    extension: Seq<char>,
)
    ensures
        ({
            let session = backend.mounted(plugin_name, Some(extension)).session;
            &&& session is Some
            &&& session->0.plugin_name == plugin_name
            &&& session->0.media_extension == lowercase(extension)
            &&& session->0.status == PlaybackStatus::Playing
            &&& session->0.output_frame == 0
        }),
        ({
            let session = backend.mounted(plugin_name, None).session;
            &&& session is Some
            &&& session->0.plugin_name == plugin_name
            &&& session->0.media_extension.len() == 0
            &&& session->0.status == PlaybackStatus::Playing
            &&& session->0.output_frame == 0
        }),
{
}

/// What a mount comes to does not depend on the session before it.
pub proof fn a_mount_forgets_the_session_before_it(
    backend: BackendView,
    other: Option<SessionView>,
    plugin_name: Seq<char>,
    extension: Option<Seq<char>>,
)
    ensures
        backend.mounted(plugin_name, extension) == (BackendView {
            session: other,
            ..backend
        }).mounted(plugin_name, extension),
{
}

/// A swap leaves the new set and no session, and keeps the budgets.
pub proof fn a_swap_leaves_the_new_set_alone(backend: BackendView, plugins: Seq<LoadedPlugin>)
    ensures
        backend.holding(plugins).plugins == plugins,
        backend.holding(plugins).session is None,
        backend.holding(plugins).target == backend.target,
        backend.holding(plugins).max_frames == backend.max_frames,
        backend.holding(plugins).extensions == extension_set(plugins),
{
}

/// Every decoder of a set counts once, and nothing else counts.
pub proof fn every_decoder_counts_once(
    a: Seq<LoadedPlugin>,
    plugin: LoadedPlugin,
    b: Seq<LoadedPlugin>,
)
    ensures
        playback_count(Seq::empty()) == 0,
        playback_count(a + b) == playback_count(a) + playback_count(b),
        plugin.kind == PluginKind::Playback ==> playback_count(seq![plugin]) == 1,
        plugin.kind == PluginKind::Other ==> playback_count(seq![plugin]) == 0,
{
    let decodes = |plugin: LoadedPlugin| plugin.kind is Playback;
    Seq::filter_distributes_over_add(a, b, decodes);
    reveal_with_fuel(Seq::filter, 2);
    assert(seq![plugin].drop_last() == Seq::<LoadedPlugin>::empty());
}

/// Toggling twice leaves everything as it was.
pub proof fn toggling_twice_restores(backend: BackendView)
    ensures
        backend.toggled().0.toggled().0 == backend,
{
}

/// A toggle says that the session plays exactly when it plays afterwards, and
/// says nothing exactly when it changed nothing.
pub proof fn a_toggle_tells_what_it_did(backend: BackendView)
    ensures
        backend.toggled().1 == Some(true) <==> backend.status() == PlaybackStatus::Paused,
        backend.toggled().1 == Some(false) <==> backend.status() == PlaybackStatus::Playing,
        backend.toggled().1 == Some(true) ==> backend.toggled().0.status()
            == PlaybackStatus::Playing,
        backend.toggled().1 == Some(false) ==> backend.toggled().0.status()
            == PlaybackStatus::Paused,
        backend.toggled().1 is None <==> backend.toggled().0 == backend,
{
}

/// The state of a player is that of its session, and idle without one.
pub proof fn the_state_is_that_of_the_session(backend: BackendView)
    ensures
        backend.session matches Some(session) ==> backend.status() == session.status,
        backend.session is None ==> backend.status() == PlaybackStatus::Idle,
{
}

/// A toggle changes the state of a session and nothing else of it.
pub proof fn a_toggle_changes_the_state_alone(backend: BackendView)
    requires
        backend.session is Some,
    ensures
        backend.toggled().0.session == Some(
            SessionView { status: backend.toggled().0.status(), ..backend.session->0 },
        ),
{
}

/// What is wanted is decoded as far as the budget goes, and nothing but by a
/// playing session.
pub proof fn rendering_keeps_to_the_budget(backend: BackendView, frames: u32)
    ensures
        backend.to_render(frames) matches Some(n) ==> n <= frames && n <= backend.max_frames,
        backend.to_render(frames) matches Some(n) ==> n == frames || n == backend.max_frames,
        backend.to_render(frames) is Some <==> backend.status() == PlaybackStatus::Playing && frames
            > 0,
{
}

/// The position only moves forward, and stays with the media: decoding
/// changes nothing of a session but its position and, at the end, its state.
pub proof fn the_position_only_moves_forward(backend: BackendView, produced: u64, finished: bool)
    requires
        backend.session is Some,
    ensures
        backend.rendered(produced, finished).session is Some,
        backend.rendered(produced, finished).session->0.output_frame
            >= backend.session->0.output_frame,
        backend.rendered(produced, finished).session->0.plugin_name
            == backend.session->0.plugin_name,
        backend.rendered(produced, finished).session->0.media_extension
            == backend.session->0.media_extension,
        backend.rendered(produced, finished).plugins == backend.plugins,
        !finished ==> backend.rendered(produced, finished).status() == backend.status(),
{
}

/// The position is the number of frames decoded since the mount, as far as it
/// can be counted, and decoding in two turns counts like decoding in one.
pub proof fn every_decoded_frame_counts(
    backend: BackendView,
    produced: u64,
    more: u64,
    finished: bool,
)
    requires
        backend.session is Some,
    ensures
        ({
            let at = backend.session->0.output_frame;
            let now = backend.rendered(produced, finished).session->0.output_frame;
            &&& at + produced <= u64::MAX ==> now == at + produced
            &&& at + produced > u64::MAX ==> now == u64::MAX
        }),
        produced + more <= u64::MAX ==> backend.rendered(produced, false).rendered(more, finished)
            == backend.rendered((produced + more) as u64, finished),
        finished ==> backend.rendered(produced, finished).status() == PlaybackStatus::Finished,
{
}

/// A finished session decodes nothing and cannot be paused; only another
/// mount plays again.
pub proof fn a_finished_session_stays_finished(backend: BackendView, produced: u64, frames: u32)
    requires
        backend.session is Some,
    ensures
        backend.rendered(produced, true).status() == PlaybackStatus::Finished,
        backend.rendered(produced, true).to_render(frames) is None,
        backend.rendered(produced, true).toggled() == (
            backend.rendered(produced, true),
            None::<bool>,
        ),
{
}

/// Whether the session, if there is one, plays, is paused or is finished.
pub open spec fn settled(backend: BackendView) -> bool {
    backend.session is Some ==> {
        ||| backend.status() == PlaybackStatus::Playing
        ||| backend.status() == PlaybackStatus::Paused
        ||| backend.status() == PlaybackStatus::Finished
    }
}

/// A session plays, is paused or is finished, and is never anything else,
/// whatever is done to it.
pub proof fn a_session_plays_pauses_or_is_finished(
    backend: BackendView,
    plugins: Seq<LoadedPlugin>,
    plugin_name: Seq<char>,
    extension: Option<Seq<char>>,
    produced: u64,
    finished: bool,
)
    ensures
        settled(backend.holding(plugins)),
        settled(backend.closed()),
        settled(backend.mounted(plugin_name, extension)),
        settled(backend) ==> settled(backend.toggled().0),
        settled(backend) ==> settled(backend.rendered(produced, finished)),
{
}

/// Mounting, closing, pausing and decoding change the session alone: the
/// decoder set, its index and the budgets stay.
pub proof fn playing_changes_the_session_alone(
    backend: BackendView,
    plugin_name: Seq<char>,
    extension: Option<Seq<char>>,
    produced: u64,
    finished: bool,
)
    ensures
        backend.mounted(plugin_name, extension) == (BackendView {
            session: backend.mounted(plugin_name, extension).session,
            ..backend
        }),
        backend.closed() == (BackendView { session: None, ..backend }),
        backend.toggled().0 == (BackendView { session: backend.toggled().0.session, ..backend }),
        backend.rendered(produced, finished) == (BackendView {
            session: backend.rendered(produced, finished).session,
            ..backend
        }),
{
}

/// Without a session the player is idle: nothing is decoded and nothing is
/// toggled.
pub proof fn without_a_session_nothing_happens(
    backend: BackendView,
    produced: u64,
    finished: bool,
    frames: u32,
)
    ensures
        backend.closed().status() == PlaybackStatus::Idle,
        backend.closed().to_render(frames) is None,
        backend.closed().toggled() == (backend.closed(), None::<bool>),
        backend.closed().rendered(produced, finished) == backend.closed(),
{
}

/// `s` with `n` dots before it.
pub open spec fn dotted(n: nat, s: Seq<char>) -> Seq<char> {
    Seq::new(n, |i: int| '.') + s
}

proof fn undotted_drops_dots(n: nat, s: Seq<char>)
    ensures
        undotted(dotted(n, s)) == undotted(s),
    decreases n,
{
    if n == 0 {
        assert(dotted(n, s) == s);
    } else {
        undotted_drops_dots((n - 1) as nat, s);
        assert(dotted(n, s).drop_first() == dotted((n - 1) as nat, s));
    }
}

proof fn undotted_keeps_case(a: Seq<char>, b: Seq<char>)
    requires
        lowercase(a) == lowercase(b),
    ensures
        lowercase(undotted(a)) == lowercase(undotted(b)),
    decreases a.len(),
{
    assert(a.len() == lowercase(a).len());
    assert(b.len() == lowercase(b).len());
    if a.len() > 0 {
        assert(lowercase(a)[0] == lower(a[0]));
        assert(lowercase(b)[0] == lower(b[0]));
        assert((a[0] == '.') == (b[0] == '.'));
        assert forall|i: int| 0 <= i < a.len() - 1 implies lowercase(a.drop_first())[i]
            == lowercase(b.drop_first())[i] by {
            assert(lowercase(a.drop_first())[i] == lowercase(a)[i + 1]);
            assert(lowercase(b.drop_first())[i] == lowercase(b)[i + 1]);
        }
        assert(lowercase(a.drop_first()) == lowercase(b.drop_first()));
        if a[0] == '.' {
            undotted_keeps_case(a.drop_first(), b.drop_first());
        }
    }
}

/// An extension may be asked for with any number of dots before it, and in
/// capitals or not: the answer is the same.
pub proof fn dots_and_capitals_do_not_matter(
    backend: BackendView,
    a: Seq<char>,
    dots_of_a: nat,
    b: Seq<char>,
    dots_of_b: nat,
)
    requires
        lowercase(a) == lowercase(b),
    ensures
        normal(dotted(dots_of_a, a)) == normal(dotted(dots_of_b, b)),
        backend.extensions.contains(normal(dotted(dots_of_a, a))) == backend.extensions.contains(
            normal(dotted(dots_of_b, b)),
        ),
{
    undotted_drops_dots(dots_of_a, a);
    undotted_drops_dots(dots_of_b, b);
    undotted_keeps_case(a, b);
}

proof fn entries_are_small(list: Seq<char>, entry: Seq<char>)
    requires
        entries(list).contains(entry),
    ensures
        lowercase(entry) == entry,
{
    let full = pieces(list, Cut::List).map_values(|piece: Seq<char>| trim(piece)).filter(
        |piece: Seq<char>| piece.len() > 0,
    );
    let k = choose|k: int| 0 <= k < entries(list).len() && entries(list)[k] == entry;
    assert(entry == lowercase(full[k]));
    assert(lowercase(lowercase(full[k])) == lowercase(full[k]));
}

/// Whatever a loaded decoder lists can be handled, with any number of dots
/// before it and in capitals or not, unless it is itself listed with a dot
/// before it.
pub proof fn what_a_decoder_lists_can_be_handled(
    backend: BackendView,
    i: int,
    extension: Seq<char>,
    asked: Seq<char>,
    dots: nat,
)
    requires
        backend.extensions == extension_set(backend.plugins),
        0 <= i < backend.plugins.len(),
        supports(backend.plugins[i], extension),
        extension.len() == 0 || extension[0] != '.',
        lowercase(asked) == lowercase(extension),
    ensures
        backend.extensions.contains(normal(dotted(dots, asked))),
{
    entries_are_small(backend.plugins[i].extensions->0@, extension);
    assert(extension_set(backend.plugins).contains(extension));
    dots_and_capitals_do_not_matter(backend, asked, dots, extension, 0);
    undotted_drops_dots(0, extension);
}

/// Nothing else can be handled: what can be is listed by a loaded decoder.
pub proof fn what_can_be_handled_is_listed(backend: BackendView, extension: Seq<char>)
    requires
        backend.extensions == extension_set(backend.plugins),
        backend.extensions.contains(normal(extension)),
    ensures
        exists|i: int|
            0 <= i < backend.plugins.len() && supports(
                #[trigger] backend.plugins[i],
                normal(extension),
            ),
{
}

/// An extension can be handled exactly when it stands, in whatever case,
/// between two separators of the list of a loaded decoder. Dots before it do
/// not count.
pub proof fn an_extension_is_handled_when_a_decoder_lists_it(
    backend: BackendView,
    asked: Seq<char>,
    dots: nat,
)
    requires
        backend.extensions == extension_set(backend.plugins),
        asked.len() == 0 || asked[0] != '.',
    ensures
        backend.extensions.contains(normal(dotted(dots, asked))) <==> exists|p: int, i: int, j: int|
            lists(backend.plugins, asked, p, i, j),
{
    undotted_drops_dots(dots, asked);
    let wanted = lowercase(asked);
    if backend.extensions.contains(wanted) {
        let p = choose|p: int|
            0 <= p < backend.plugins.len() && supports(#[trigger] backend.plugins[p], wanted);
        let list = backend.plugins[p].extensions->0@;
        the_entries_are_what_stands_between_separators(list, wanted);
        let (i, j) = choose|i: int, j: int| #[trigger]
            between(list, i, j) && trim(list.subrange(i, j)).len() > 0 && wanted == lowercase(
                trim(list.subrange(i, j)),
            );
        assert(lists(backend.plugins, asked, p, i, j));
    }
    if exists|p: int, i: int, j: int| lists(backend.plugins, asked, p, i, j) {
        let (p, i, j) = choose|p: int, i: int, j: int| lists(backend.plugins, asked, p, i, j);
        let list = backend.plugins[p].extensions->0@;
        assert(between(list, i, j));
        the_entries_are_what_stands_between_separators(list, wanted);
        assert(supports(backend.plugins[p], wanted));
    }
}

/// Whether the list of the decoder at `p` holds `asked` from `i` up to `j`.
pub open spec fn lists(
    plugins: Seq<LoadedPlugin>,
    asked: Seq<char>,
    p: int,
    i: int,
    j: int,
) -> bool {
    &&& 0 <= p < plugins.len()
    &&& plugins[p].kind == PluginKind::Playback
    &&& plugins[p].extensions matches Some(list) && {
        &&& between(list@, i, j)
        &&& trim(list@.subrange(i, j)).len() > 0
        &&& lowercase(trim(list@.subrange(i, j))) == lowercase(asked)
    }
}

/// Without plugins nothing can be handled.
pub proof fn without_plugins_nothing_can_be_handled(backend: BackendView, extension: Seq<char>)
    ensures
        !backend.holding(Seq::<LoadedPlugin>::empty()).extensions.contains(normal(extension)),
{
}

} // verus!
