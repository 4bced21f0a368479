//! URIs of custom protocols.
//!
//! WebView2 supports non-standard protocols only on Windows 10 and later. As a work
//! around `{protocol}://localhost/abc` is loaded as
//! `{http_or_https}://{protocol}.localhost/abc`.
//!
//! See <https://github.com/MicrosoftEdge/WebView2Feedback/issues/73>

use crate::text;
use vstd::prelude::*;

verus! {

/// `{protocol}://`
pub open spec fn original_prefix(protocol: Seq<char>) -> Seq<char> {
    protocol + "://"@
}

/// `{http_or_https}://{protocol}.`
pub open spec fn work_around_prefix(http_or_https: Seq<char>, protocol: Seq<char>) -> Seq<char> {
    http_or_https + "://"@ + protocol + "."@
}

/// `uri` as it is loaded: the work-around prefix in place of the original one.
pub open spec fn worked_around(
    uri: Seq<char>,
    http_or_https: Seq<char>,
    protocol: Seq<char>,
) -> Seq<char> {
    text::replaced(uri, original_prefix(protocol), work_around_prefix(http_or_https, protocol))
}

/// `uri` as the application knows it: the original prefix in place of the
/// work-around one.
pub open spec fn restored(
    uri: Seq<char>,
    http_or_https: Seq<char>,
    protocol: Seq<char>,
) -> Seq<char> {
    text::replaced(uri, work_around_prefix(http_or_https, protocol), original_prefix(protocol))
}

/// `uri` is one that was converted: it starts with the work-around prefix.
pub open spec fn recognised(uri: Seq<char>, http_or_https: Seq<char>, protocol: Seq<char>) -> bool {
    text::occurs_at(uri, work_around_prefix(http_or_https, protocol), 0)
}

/// Tests if the URI starts with `{http_or_https}://{protocol}.`
pub fn is_work_around_uri(uri: &str, http_or_https: &str, protocol: &str) -> (result: bool)
    ensures
        result == text::occurs_at(uri@, work_around_prefix(http_or_https@, protocol@), 0),
        result == recognised(uri@, http_or_https@, protocol@),
{
    text::begins_with(uri, work_around_uri_prefix(http_or_https, protocol).as_str())
}

/// Puts `{http_or_https}://{protocol}.` in place of every `{protocol}://`.
pub fn apply_uri_work_around(uri: &str, http_or_https: &str, protocol: &str) -> (result: String)
    ensures
        result@ == worked_around(uri@, http_or_https@, protocol@),
{
    let original: String = original_uri_prefix(protocol);
    let work_around: String = work_around_uri_prefix(http_or_https, protocol);
    proof {
        reveal_strlit("://");
    }
    text::replace_occurrences(uri, original.as_str(), work_around.as_str())
}

/// Puts `{protocol}://` in place of every `{http_or_https}://{protocol}.`
pub fn revert_uri_work_around(uri: &str, http_or_https: &str, protocol: &str) -> (result: String)
    ensures
        result@ == restored(uri@, http_or_https@, protocol@),
{
    let original: String = original_uri_prefix(protocol);
    let work_around: String = work_around_uri_prefix(http_or_https, protocol);
    proof {
        reveal_strlit("://");
    }
    text::replace_occurrences(uri, work_around.as_str(), original.as_str())
}

/// `{protocol}://`
pub fn original_uri_prefix(protocol: &str) -> (result: String)
    ensures
        result@ == original_prefix(protocol@),
{
    protocol.to_owned().concat("://")
}

/// `{http_or_https}://{protocol}.`
pub fn work_around_uri_prefix(http_or_https: &str, protocol: &str) -> (result: String)
    ensures
        result@ == work_around_prefix(http_or_https@, protocol@),
{
    http_or_https.to_owned().concat("://").concat(protocol).concat(".")
}

/// A URI that starts with `{protocol}://` is loaded under the work-around prefix,
/// with what follows converted in the same way.
pub proof fn law_apply_converts_prefix(
    rest: Seq<char>,
    http_or_https: Seq<char>,
    protocol: Seq<char>,
)
    ensures
        worked_around(original_prefix(protocol) + rest, http_or_https, protocol)
            == work_around_prefix(http_or_https, protocol) + worked_around(
            rest,
            http_or_https,
            protocol,
        ),
{
    reveal_strlit("://");
    let original = original_prefix(protocol);
    let uri = original + rest;
    assert(uri.subrange(0, original.len() as int) =~= original);
    assert(uri.skip(original.len() as int) =~= rest);
}

/// A URI that starts with `{http_or_https}://{protocol}.` is given back under
/// `{protocol}://`, with what follows converted in the same way.
pub proof fn law_revert_converts_prefix(
    rest: Seq<char>,
    http_or_https: Seq<char>,
    protocol: Seq<char>,
)
    ensures
        restored(work_around_prefix(http_or_https, protocol) + rest, http_or_https, protocol)
            == original_prefix(protocol) + restored(rest, http_or_https, protocol),
{
    reveal_strlit("://");
    let work_around = work_around_prefix(http_or_https, protocol);
    let uri = work_around + rest;
    assert(uri.subrange(0, work_around.len() as int) =~= work_around);
    assert(uri.skip(work_around.len() as int) =~= rest);
}

/// A URI without `{protocol}://` is loaded as it is, and one without
/// `{http_or_https}://{protocol}.` is given back as it is.
pub proof fn law_other_uris_are_kept(
    uri: Seq<char>,
    http_or_https: Seq<char>,
    protocol: Seq<char>,
)
    ensures
        !text::occurs_in(uri, original_prefix(protocol)) ==> worked_around(uri, http_or_https, protocol)
            == uri,
        !text::occurs_in(uri, work_around_prefix(http_or_https, protocol)) ==> restored(
            uri,
            http_or_https,
            protocol,
        ) == uri,
{
    reveal_strlit("://");
    let original = original_prefix(protocol);
    let work_around = work_around_prefix(http_or_https, protocol);
    if !text::occurs_in(uri, original) {
        text::law_replaced_without_occurrence(uri, original, work_around);
    }
    if !text::occurs_in(uri, work_around) {
        text::law_replaced_without_occurrence(uri, work_around, original);
    }
}

/// A URI of the protocol is recognised as a work-around URI once it was converted.
pub proof fn law_converted_uri_is_recognised(
    uri: Seq<char>,
    http_or_https: Seq<char>,
    protocol: Seq<char>,
)
    requires
        text::occurs_at(uri, original_prefix(protocol), 0),
    ensures
        text::occurs_at(
            worked_around(uri, http_or_https, protocol),
            work_around_prefix(http_or_https, protocol),
            0,
        ),
{
    let original = original_prefix(protocol);
    let work_around = work_around_prefix(http_or_https, protocol);
    let rest = uri.skip(original.len() as int);
    assert(original + rest =~= uri) by {
        assert(uri.subrange(0, original.len() as int) + rest =~= uri);
    }
    law_apply_converts_prefix(rest, http_or_https, protocol);
    let result = worked_around(uri, http_or_https, protocol);
    assert(result.subrange(0, work_around.len() as int) =~= work_around);
}

/// The characters that tell the two prefixes apart stand in neither name: a
/// protocol is a URI scheme, and the host scheme has no dot.
pub open spec fn schemes_are_plain(http_or_https: Seq<char>, protocol: Seq<char>) -> bool {
    &&& !http_or_https.contains(':')
    &&& !http_or_https.contains('.')
    &&& !protocol.contains(':')
    &&& !protocol.contains('/')
}

/// The original prefix of a protocol without a colon and a slash, as a URI scheme is,
/// cannot overlap another occurrence of itself.
pub proof fn law_original_prefix_is_borderless(protocol: Seq<char>)
    requires
        !protocol.contains(':'),
        !protocol.contains('/'),
    ensures
        text::borderless(original_prefix(protocol)),
{
    reveal_strlit("://");
    let original = original_prefix(protocol);
    let p = protocol.len() as int;
    assert forall|shift: int| 0 < shift < original.len() implies #[trigger] original.skip(shift)
        != original.take(original.len() - shift) by {
        if original.skip(shift) == original.take(original.len() - shift) {
            if shift <= p {
                assert(original.skip(shift)[p - shift] == ':');
                assert(protocol[p - shift] == ':');
            } else {
                assert(original.skip(shift)[0] == '/');
                assert(original.take(original.len() - shift)[0] == original[0]);
                assert(p > 0 ==> protocol[0] == '/');
            }
        }
    }
}

/// The work-around prefix of names without a dot cannot overlap another occurrence of
/// itself: its only dot is at its end.
pub proof fn law_dotless_work_around_prefix_is_borderless(
    http_or_https: Seq<char>,
    protocol: Seq<char>,
)
    requires
        !http_or_https.contains('.'),
        !protocol.contains('.'),
    ensures
        text::borderless(work_around_prefix(http_or_https, protocol)),
{
    reveal_strlit("://");
    reveal_strlit(".");
    let work_around = work_around_prefix(http_or_https, protocol);
    let h = http_or_https.len() as int;
    let n = work_around.len() as int;
    assert forall|i: int| 0 <= i < n - 1 implies work_around[i] != '.' by {
        if i < h {
            assert(work_around[i] == http_or_https[i]);
        } else if i > h + 2 {
            assert(work_around[i] == protocol[i - h - 3]);
        }
    }
    assert forall|shift: int| 0 < shift < n implies #[trigger] work_around.skip(shift)
        != work_around.take(n - shift) by {
        if work_around.skip(shift) == work_around.take(n - shift) {
            assert(work_around.skip(shift)[n - 1 - shift] == '.');
            assert(work_around.take(n - shift)[n - 1 - shift] == work_around[n - 1 - shift]);
        }
    }
}

/// Neither prefix of plain schemes can overlap another occurrence of itself.
pub proof fn law_prefixes_of_plain_schemes_are_borderless(http_or_https: Seq<char>, protocol: Seq<char>)
    requires
        schemes_are_plain(http_or_https, protocol),
    ensures
        text::borderless(original_prefix(protocol)),
        text::borderless(work_around_prefix(http_or_https, protocol)),
{
    reveal_strlit("://");
    reveal_strlit(".");
    law_original_prefix_is_borderless(protocol);
    let work_around = work_around_prefix(http_or_https, protocol);
    let h = http_or_https.len() as int;
    let n = work_around.len() as int;
    assert(work_around[h] == ':');
    assert(work_around[n - 1] == '.');
    assert forall|i: int| 0 <= i < n && work_around[i] == ':' implies i == h by {
        if i < h {
            assert(http_or_https[i] == ':');
        } else if i > h + 2 && i < n - 1 {
            assert(protocol[i - h - 3] == ':');
        }
    }
    assert forall|shift: int| 0 < shift < n implies #[trigger] work_around.skip(shift)
        != work_around.take(n - shift) by {
        if work_around.skip(shift) == work_around.take(n - shift) {
            if shift <= h {
                assert(work_around.skip(shift)[h - shift] == ':');
                assert(work_around.take(n - shift)[h - shift] == work_around[h - shift]);
            } else if shift + h < n {
                assert(work_around.take(n - shift)[h] == ':');
                assert(work_around.skip(shift)[h] == work_around[shift + h]);
            } else {
                assert(work_around.skip(shift)[n - 1 - shift] == '.');
                assert(work_around.take(n - shift)[n - 1 - shift] == work_around[n - 1 - shift]);
                assert(http_or_https[n - 1 - shift] == '.');
            }
        }
    }
}

/// Reverting undoes applying exactly where every work-around prefix that already
/// stands in the URI overlaps an original one. The prefixes do not overlap
/// themselves, as is the case for plain schemes.
pub proof fn law_revert_undoes_apply(
    uri: Seq<char>,
    http_or_https: Seq<char>,
    protocol: Seq<char>,
)
    requires
        text::borderless(original_prefix(protocol)),
        text::borderless(work_around_prefix(http_or_https, protocol)),
    ensures
        restored(worked_around(uri, http_or_https, protocol), http_or_https, protocol) == uri
            <==> text::covered(
            uri,
            work_around_prefix(http_or_https, protocol),
            original_prefix(protocol),
        ),
{
    reveal_strlit(".");
    text::law_replacement_round_trip(
        uri,
        original_prefix(protocol),
        work_around_prefix(http_or_https, protocol),
    );
}

/// Applying undoes reverting exactly where every original prefix that already
/// stands in the URI overlaps a work-around one. The prefixes do not overlap
/// themselves, as is the case for plain schemes.
pub proof fn law_apply_undoes_revert(
    uri: Seq<char>,
    http_or_https: Seq<char>,
    protocol: Seq<char>,
)
    requires
        text::borderless(original_prefix(protocol)),
        text::borderless(work_around_prefix(http_or_https, protocol)),
    ensures
        worked_around(restored(uri, http_or_https, protocol), http_or_https, protocol) == uri
            <==> text::covered(
            uri,
            original_prefix(protocol),
            work_around_prefix(http_or_https, protocol),
        ),
{
    reveal_strlit(".");
    text::law_replacement_round_trip(
        uri,
        work_around_prefix(http_or_https, protocol),
        original_prefix(protocol),
    );
}

/// Reverting undoes applying on every URI that the work-around prefix does not stand
/// in, whatever the names are, as long as neither has a dot.
pub proof fn law_revert_undoes_apply_without_work_around_prefix(
    uri: Seq<char>,
    http_or_https: Seq<char>,
    protocol: Seq<char>,
)
    requires
        !http_or_https.contains('.'),
        !protocol.contains('.'),
        !text::occurs_in(uri, work_around_prefix(http_or_https, protocol)),
    ensures
        restored(worked_around(uri, http_or_https, protocol), http_or_https, protocol) == uri,
{
    reveal_strlit("://");
    law_dotless_work_around_prefix_is_borderless(http_or_https, protocol);
    text::law_replaced_back_without_occurrence(
        uri,
        original_prefix(protocol),
        work_around_prefix(http_or_https, protocol),
    );
}

/// Applying undoes reverting on every URI that the original prefix does not stand in,
/// whatever the host scheme is, as long as the protocol has no colon and no slash.
pub proof fn law_apply_undoes_revert_without_original_prefix(
    uri: Seq<char>,
    http_or_https: Seq<char>,
    protocol: Seq<char>,
)
    requires
        !protocol.contains(':'),
        !protocol.contains('/'),
        !text::occurs_in(uri, original_prefix(protocol)),
    ensures
        worked_around(restored(uri, http_or_https, protocol), http_or_https, protocol) == uri,
{
    reveal_strlit("://");
    law_original_prefix_is_borderless(protocol);
    text::law_replaced_back_without_occurrence(
        uri,
        work_around_prefix(http_or_https, protocol),
        original_prefix(protocol),
    );
}

/// The prefixes are made of the names as they are given, character by character.
pub proof fn law_prefixes_are_spelled_out(http_or_https: Seq<char>, protocol: Seq<char>)
    ensures
        original_prefix(protocol) == protocol + seq![':', '/', '/'],
        work_around_prefix(http_or_https, protocol) == http_or_https + seq![':', '/', '/']
            + protocol + seq!['.'],
{
    reveal_strlit("://");
    reveal_strlit(".");
    assert("://"@ =~= seq![':', '/', '/']);
    assert("."@ =~= seq!['.']);
}

/// A URI is recognised exactly if it is the host scheme, `://`, the protocol and a dot
/// with anything behind them.
pub proof fn law_recognised_uris_have_the_prefix(
    uri: Seq<char>,
    http_or_https: Seq<char>,
    protocol: Seq<char>,
)
    ensures
        recognised(uri, http_or_https, protocol) <==> exists|rest: Seq<char>|
            uri == http_or_https + seq![':', '/', '/'] + protocol + seq!['.'] + rest,
{
    law_prefixes_are_spelled_out(http_or_https, protocol);
    let prefix = http_or_https + seq![':', '/', '/'] + protocol + seq!['.'];
    if recognised(uri, http_or_https, protocol) {
        let rest = uri.skip(prefix.len() as int);
        assert(uri.subrange(0, prefix.len() as int) + rest =~= uri);
        assert(uri == prefix + rest);
    }
    if exists|rest: Seq<char>| uri == prefix + rest {
        let rest = choose|rest: Seq<char>| uri == prefix + rest;
        assert(uri.subrange(0, prefix.len() as int) =~= prefix);
    }
}

/// The first `{protocol}://` of a URI is converted, what stands before it is kept, and
/// what follows it is treated in the same way.
pub proof fn law_apply_converts_first_occurrence(
    before: Seq<char>,
    after: Seq<char>,
    http_or_https: Seq<char>,
    protocol: Seq<char>,
    original: Seq<char>,
    work_around: Seq<char>,
)
    requires
        original == protocol + seq![':', '/', '/'],
        work_around == http_or_https + seq![':', '/', '/'] + protocol + seq!['.'],
        forall|at: int|
            0 <= at < before.len() ==> !#[trigger] text::occurs_at(
                before + original + after,
                original,
                at,
            ),
    ensures
        worked_around(before + original + after, http_or_https, protocol) == before + work_around
            + worked_around(after, http_or_https, protocol),
{
    law_prefixes_are_spelled_out(http_or_https, protocol);
    text::law_replaced_at_first_occurrence(before, after, original, work_around);
}

/// The first `{http_or_https}://{protocol}.` of a URI is converted back, what stands
/// before it is kept, and what follows it is treated in the same way.
pub proof fn law_revert_converts_first_occurrence(
    before: Seq<char>,
    after: Seq<char>,
    http_or_https: Seq<char>,
    protocol: Seq<char>,
    original: Seq<char>,
    work_around: Seq<char>,
)
    requires
        original == protocol + seq![':', '/', '/'],
        work_around == http_or_https + seq![':', '/', '/'] + protocol + seq!['.'],
        forall|at: int|
            0 <= at < before.len() ==> !#[trigger] text::occurs_at(
                before + work_around + after,
                work_around,
                at,
            ),
    ensures
        restored(before + work_around + after, http_or_https, protocol) == before + original
            + restored(after, http_or_https, protocol),
{
    law_prefixes_are_spelled_out(http_or_https, protocol);
    text::law_replaced_at_first_occurrence(before, after, work_around, original);
}

} // verus!
