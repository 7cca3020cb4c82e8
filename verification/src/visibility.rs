//! Photo visibility levels and their OSC integer codes.

use vstd::prelude::*;
use crate::text::str_eq;

verus! {

/// The visibility named by an OSC integer value, if the value names one.
pub open spec fn osc_visibility_spec(value: i32) -> Option<Seq<char>> {
    if value == 2 {
        Some("self"@)
    } else if value == 3 {
        Some("friends"@)
    } else if value == 4 {
        Some("instance_friends"@)
    } else if value == 5 {
        Some("instance"@)
    } else if value == 6 {
        Some("public"@)
    } else {
        None
    }
}

/// The OSC integer value sent for a visibility; unknown names fall back to `self` (2).
pub open spec fn visibility_osc_spec(visibility: Seq<char>) -> i32 {
    if visibility == "self"@ {
        2
    } else if visibility == "friends"@ {
        3
    } else if visibility == "instance_friends"@ {
        4
    } else if visibility == "instance"@ {
        5
    } else if visibility == "public"@ {
        6
    } else {
        2
    }
}

/// Whether a name is one of the five visibility levels.
pub open spec fn is_known_visibility(visibility: Seq<char>) -> bool {
    ||| visibility == "self"@
    ||| visibility == "friends"@
    ||| visibility == "instance_friends"@
    ||| visibility == "instance"@
    ||| visibility == "public"@
}

/// OSC int value to visibility name.
pub fn osc_to_visibility(value: i32) -> (r: Option<&'static str>)
    ensures
        match r {
            Some(s) => osc_visibility_spec(value) == Some(s@),
            None => osc_visibility_spec(value) is None,
        },
{
    if value == 2 {
        Some("self")
    } else if value == 3 {
        Some("friends")
    } else if value == 4 {
        Some("instance_friends")
    } else if value == 5 {
        Some("instance")
    } else if value == 6 {
        Some("public")
    } else {
        None
    }
}

/// Visibility name to OSC int value.
pub fn visibility_to_osc(visibility: &str) -> (r: i32)
    ensures
        r == visibility_osc_spec(visibility@),
{
    if str_eq(visibility, "self") {
        2
    } else if str_eq(visibility, "friends") {
        3
    } else if str_eq(visibility, "instance_friends") {
        4
    } else if str_eq(visibility, "instance") {
        5
    } else if str_eq(visibility, "public") {
        6
    } else {
        2
    }
}

proof fn lemma_visibility_names_distinct()
    ensures
        "self"@ != "friends"@,
        "self"@ != "instance_friends"@,
        "self"@ != "instance"@,
        "self"@ != "public"@,
        "friends"@ != "instance_friends"@,
        "friends"@ != "instance"@,
        "friends"@ != "public"@,
        "instance_friends"@ != "instance"@,
        "instance_friends"@ != "public"@,
        "instance"@ != "public"@,
{
    reveal_strlit("self");
    reveal_strlit("friends");
    reveal_strlit("instance_friends");
    reveal_strlit("instance");
    reveal_strlit("public");
    assert("self"@.len() != "friends"@.len());
    assert("self"@.len() != "instance_friends"@.len());
    assert("self"@[0] != "instance"@[0]);
    assert("self"@[0] != "public"@[0]);
    assert("friends"@.len() != "instance_friends"@.len());
    assert("friends"@[0] != "instance"@[0]);
    assert("friends"@[0] != "public"@[0]);
    assert("instance_friends"@.len() != "instance"@.len());
    assert("instance_friends"@[0] != "public"@[0]);
    assert("instance"@[0] != "public"@[0]);
}

/// Every OSC value from 2 to 6 names a visibility, and sending that visibility
/// transmits the same value again.
pub proof fn lemma_osc_value_roundtrip(value: i32)
    requires
        2 <= value <= 6,
    ensures
        osc_visibility_spec(value) is Some,
        visibility_osc_spec(osc_visibility_spec(value)->0) == value,
        is_known_visibility(osc_visibility_spec(value)->0),
{
    lemma_visibility_names_distinct();
}

/// Each known visibility is sent as a value in 2..=6 that decodes back to it;
/// any other name is sent as 2, the value of `self`.
pub proof fn lemma_visibility_roundtrip(visibility: Seq<char>)
    ensures
        is_known_visibility(visibility) ==> {
            &&& 2 <= visibility_osc_spec(visibility) <= 6
            &&& osc_visibility_spec(visibility_osc_spec(visibility)) == Some(visibility)
        },
        !is_known_visibility(visibility) ==> visibility_osc_spec(visibility) == 2
            && osc_visibility_spec(2) == Some("self"@),
{
    lemma_visibility_names_distinct();
}

/// The visibility choices offered to the user: (name, label).
pub open spec fn visibility_options_spec() -> Seq<(Seq<char>, Seq<char>)> {
    seq![
        ("self"@, "自分のみ"@),
        ("friends"@, "フレンド"@),
        ("instance_friends"@, "インスタンス&フレンド"@),
        ("instance"@, "インスタンス"@),
        ("public"@, "パブリック"@),
    ]
}

/// The visibility choices offered to the user, in display order.
pub fn visibility_options() -> (r: Vec<(String, String)>)
    ensures
        r@.len() == visibility_options_spec().len(),
        forall|i: int|
            0 <= i < r@.len() ==> (#[trigger] r@[i]).0@ == visibility_options_spec()[i].0
                && r@[i].1@ == visibility_options_spec()[i].1,
{
    let mut v: Vec<(String, String)> = Vec::new();
    v.push(("self".to_owned(), "自分のみ".to_owned()));
    v.push(("friends".to_owned(), "フレンド".to_owned()));
    v.push(("instance_friends".to_owned(), "インスタンス&フレンド".to_owned()));
    v.push(("instance".to_owned(), "インスタンス".to_owned()));
    v.push(("public".to_owned(), "パブリック".to_owned()));
    v
}

/// The names offered as choices are exactly the visibilities that have an OSC value.
pub proof fn lemma_options_are_osc_visibilities(visibility: Seq<char>)
    ensures
        is_known_visibility(visibility) <==> exists|i: int|
            0 <= i < visibility_options_spec().len()
                && #[trigger] visibility_options_spec()[i].0 == visibility,
        forall|i: int|
            0 <= i < visibility_options_spec().len() ==> osc_visibility_spec(
                (i + 2) as i32,
            ) == Some(#[trigger] visibility_options_spec()[i].0),
{
    if is_known_visibility(visibility) {
        if visibility == "self"@ {
            assert(visibility_options_spec()[0].0 == visibility);
        } else if visibility == "friends"@ {
            assert(visibility_options_spec()[1].0 == visibility);
        } else if visibility == "instance_friends"@ {
            assert(visibility_options_spec()[2].0 == visibility);
        } else if visibility == "instance"@ {
            assert(visibility_options_spec()[3].0 == visibility);
        } else {
            assert(visibility_options_spec()[4].0 == visibility);
        }
    }
}

} // verus!
