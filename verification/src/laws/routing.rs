//! Which requests are answered, wherever the API is mounted.

use vstd::prelude::*;

use crate::effects::{ActionView, Run};
use crate::gateway::{request_run, FlowView, PolicyView, A2APendingView};
use crate::laws::text::{after_the_last, before_the_first, cutting_takes_every_one};
use crate::router::{route, Route};
use crate::text::{ascii_lower, before_first, ends_in, same_ignoring_case};

verus! {

proof fn lemma_bare(path: Seq<char>, query: Seq<char>)
    requires
        !path.contains('?'),
    ensures
        before_first(path, '?') == path,
        before_first(path + seq!['?'] + query, '?') == path,
{
    before_the_first(path, '?', query);
}

proof fn lemma_no_question(a: Seq<char>, b: Seq<char>, c: char)
    requires
        !a.contains(c),
        !b.contains(c),
    ensures
        !(a + b).contains(c),
{
    assert forall|i: int| 0 <= i < (a + b).len() implies (a + b)[i] != c by {
        if i < a.len() {
            assert(a.contains(a[i]));
        } else {
            assert(b.contains(b[i - a.len()]));
        }
    }
}

/// With the root as the path of calls, a `POST` is a call exactly where the last
/// segment of its path has no dot in it. Dots in what the API is mounted under do not
/// matter.
pub proof fn calls_at_the_root(
    verb: Seq<char>,
    mount: Seq<char>,
    segment: Seq<char>,
    query: Seq<char>,
)
    requires
        same_ignoring_case(verb, "POST"@),
        !mount.contains('?'),
        !segment.contains('?'),
        !segment.contains('/'),
    ensures
        ({
            let path = mount + seq!['/'] + segment;
            let expected = if segment.contains('.') {
                Route::Passthrough
            } else {
                Route::A2aRpc
            };
            &&& route(verb, path, "/"@) == expected
            &&& route(verb, path + seq!['?'] + query, "/"@) == expected
        }),
{
    let path = mount + seq!['/'] + segment;
    lemma_no_question(mount, seq!['/'], '?');
    lemma_no_question(mount + seq!['/'], segment, '?');
    lemma_bare(path, query);
    after_the_last(mount, '/', segment);
    lemma_post_is_not_get(verb);
}

proof fn lemma_post_is_not_get(verb: Seq<char>)
    requires
        same_ignoring_case(verb, "POST"@),
    ensures
        !same_ignoring_case(verb, "GET"@),
{
    reveal_strlit("GET");
    reveal_strlit("POST");
    assert("GET"@.len() == 3);
    assert("POST"@.len() == 4);
}

/// With another path of calls, a `POST` is a call exactly where its path is that path
/// behind some mount, with or without one more slash. Slashes at the end of the
/// configured path do not matter.
pub proof fn calls_under_a_path(
    verb: Seq<char>,
    path: Seq<char>,
    stem: Seq<char>,
    slashes: nat,
)
    requires
        same_ignoring_case(verb, "POST"@),
        !path.contains('?'),
        stem.len() > 0 ==> stem.last() != '/',
        stem + Seq::new(slashes, |i: int| '/') != "/"@,
    ensures
        ({
            let configured = stem + Seq::new(slashes, |i: int| '/');
            &&& route(verb, path, configured) is A2aRpc <==> exists|mount: Seq<char>|
                path == #[trigger] (mount + stem) || path == (mount + stem).push('/')
            &&& !(route(verb, path, configured) is A2aRpc) ==> route(verb, path, configured)
                is Passthrough
        }),
{
    let configured = stem + Seq::new(slashes, |i: int| '/');
    lemma_bare(path, Seq::empty());
    lemma_post_is_not_get(verb);
    cutting_takes_every_one(stem, '/', slashes);
    reveal_strlit("/");
    let with_slash = stem + "/"@;
    assert(with_slash =~= stem.push('/'));
    if ends_in(path, stem) {
        let mount = path.take(path.len() - stem.len());
        assert(path =~= mount + stem);
    }
    if ends_in(path, with_slash) {
        let mount = path.take(path.len() - with_slash.len());
        assert(path =~= mount + with_slash);
        assert(path =~= (mount + stem).push('/'));
    }
    if exists|mount: Seq<char>| path == #[trigger] (mount + stem) || path == (mount + stem).push('/') {
        let mount = choose|mount: Seq<char>|
            path == #[trigger] (mount + stem) || path == (mount + stem).push('/');
        if path == mount + stem {
            assert(path.skip(path.len() - stem.len()) =~= stem);
        } else {
            assert(path.skip(path.len() - with_slash.len()) =~= with_slash);
        }
    }
}

/// A `GET` is for the card exactly where its path is the well-known one behind some
/// mount; whatever verb a request has, nothing else is for the card.
pub proof fn card_requests(verb: Seq<char>, path: Seq<char>, configured: Seq<char>, query: Seq<char>)
    requires
        !path.contains('?'),
    ensures
        route(verb, path, configured) is AgentCard <==> {
            &&& same_ignoring_case(verb, "GET"@)
            &&& exists|mount: Seq<char>| path == #[trigger] (mount + "/.well-known/agent-card.json"@)
        },
        route(verb, path + seq!['?'] + query, configured) == route(verb, path, configured),
{
    let suffix = "/.well-known/agent-card.json"@;
    lemma_bare(path, query);
    if ends_in(path, suffix) {
        let mount = path.take(path.len() - suffix.len());
        assert(path =~= mount + suffix);
    }
    if exists|mount: Seq<char>| path == #[trigger] (mount + suffix) {
        let mount = choose|mount: Seq<char>| path == #[trigger] (mount + suffix);
        assert(path.skip(path.len() - suffix.len()) =~= suffix);
    }
}

/// A request whose verb is neither `GET` nor `POST` passes through, and so does a `GET`
/// that is not for the card.
pub proof fn other_verbs_pass(verb: Seq<char>, path: Seq<char>, configured: Seq<char>)
    ensures
        !same_ignoring_case(verb, "GET"@) && !same_ignoring_case(verb, "POST"@) ==> route(
            verb,
            path,
            configured,
        ) is Passthrough,
        same_ignoring_case(verb, "GET"@) ==> !(route(verb, path, configured) is A2aRpc),
{
    reveal_strlit("GET");
    reveal_strlit("POST");
    assert("GET"@.len() == 3);
    assert("POST"@.len() == 4);
}

/// Verbs are the same whether they are written in capitals or small letters.
pub proof fn verbs_ignore_case(verb: Seq<char>)
    ensures
        same_ignoring_case(verb, "GET"@) <==> {
            &&& verb.len() == 3
            &&& verb[0] == 'G' || verb[0] == 'g'
            &&& verb[1] == 'E' || verb[1] == 'e'
            &&& verb[2] == 'T' || verb[2] == 't'
        },
        same_ignoring_case(verb, "POST"@) <==> {
            &&& verb.len() == 4
            &&& verb[0] == 'P' || verb[0] == 'p'
            &&& verb[1] == 'O' || verb[1] == 'o'
            &&& verb[2] == 'S' || verb[2] == 's'
            &&& verb[3] == 'T' || verb[3] == 't'
        },
{
    reveal_strlit("GET");
    reveal_strlit("POST");
    let g = "GET"@;
    let p = "POST"@;
    assert(g.len() == 3 && g[0] == 'G' && g[1] == 'E' && g[2] == 'T');
    assert(p.len() == 4 && p[0] == 'P' && p[1] == 'O' && p[2] == 'S' && p[3] == 'T');
    if verb.len() == 3 {
        crate::laws::text::case_concerns_letters(verb[0], 'G', verb, g);
        crate::laws::text::case_concerns_letters(verb[1], 'E', verb, g);
        crate::laws::text::case_concerns_letters(verb[2], 'T', verb, g);
        assert forall|i: int| 0 <= i < 3 && same_ignoring_case(verb, g) implies ascii_lower(
            #[trigger] verb[i],
        ) == ascii_lower(g[i]) by {}
    }
    if verb.len() == 4 {
        crate::laws::text::case_concerns_letters(verb[0], 'P', verb, p);
        crate::laws::text::case_concerns_letters(verb[1], 'O', verb, p);
        crate::laws::text::case_concerns_letters(verb[2], 'S', verb, p);
        crate::laws::text::case_concerns_letters(verb[3], 'T', verb, p);
        assert forall|i: int| 0 <= i < 4 && same_ignoring_case(verb, p) implies ascii_lower(
            #[trigger] verb[i],
        ) == ascii_lower(p[i]) by {}
    }
}

/// A gateway whose calls are taken at the root reads the body of every `POST` to a
/// segment without a dot, whatever the mount, and passes on a `POST` to one with a dot,
/// or refuses it in strict mode.
pub proof fn posts_to_a_mount(
    p: PolicyView,
    verb: Seq<char>,
    mount: Seq<char>,
    segment: Seq<char>,
    has_body: bool,
)
    requires
        p.cfg.a2a_rpc_path == "/"@,
        same_ignoring_case(verb, "POST"@),
        !mount.contains('?'),
        !segment.contains('?'),
        !segment.contains('/'),
    ensures
        ({
            let path = mount + seq!['/'] + segment;
            &&& !segment.contains('.') ==> request_run(p, verb, path, true, Seq::empty()) == Run::<
                FlowView,
            >::Do(ActionView::ReadBody)
            &&& segment.contains('.') && !p.cfg.strict_mode ==> request_run(
                p,
                verb,
                path,
                has_body,
                Seq::empty(),
            ) == Run::Done(FlowView::Continue(A2APendingView::PassThrough), Seq::empty())
            &&& segment.contains('.') && p.cfg.strict_mode ==> (request_run(
                p,
                verb,
                path,
                has_body,
                Seq::empty(),
            ) matches Run::Done(FlowView::Break(r), _) && r.status == 404)
        }),
{
    calls_at_the_root(verb, mount, segment, Seq::empty());
}

/// A gateway answers a `GET` of the well-known path with the card, whatever the mount:
/// it looks at the clock for it, not at the body.
pub proof fn gets_of_the_card(
    p: PolicyView,
    verb: Seq<char>,
    mount: Seq<char>,
    has_body: bool,
)
    requires
        same_ignoring_case(verb, "GET"@),
        !mount.contains('?'),
    ensures
        request_run(
            p,
            verb,
            mount + "/.well-known/agent-card.json"@,
            has_body,
            Seq::empty(),
        ) == Run::<FlowView>::Do(ActionView::ReadClock),
{
    let suffix = "/.well-known/agent-card.json"@;
    reveal_strlit("/.well-known/agent-card.json");
    assert forall|i: int| 0 <= i < suffix.len() implies suffix[i] != '?' by {}
    lemma_no_question(mount, suffix, '?');
    card_requests(verb, mount + suffix, p.cfg.a2a_rpc_path, Seq::empty());
}

} // verus!
