//! Perl prototypes of exported functions.

use vstd::prelude::*;
use vstd::string::StringExecFns;

verus! {

/// `n` dollar signs, one for each scalar parameter.
pub open spec fn dollars(n: nat) -> Seq<char> {
    Seq::new(n, |i: int| '$')
}

/// The prototype of a function with `required` scalar parameters that have to be given, then
/// `optional` ones that may be left out, then possibly a list of everything else.
pub open spec fn prototype(required: nat, optional: nat, list: bool) -> Seq<char> {
    dollars(required) + (if optional > 0 || list {
        seq![';']
    } else {
        seq![]
    }) + dollars(optional) + (if list {
        seq!['@']
    } else {
        seq![]
    })
}

fn push_dollars(proto: &mut String, n: usize)
    ensures
        final(proto)@ == old(proto)@ + dollars(n as nat),
{
    proof {
        reveal_strlit("$");
        assert(proto@ =~= proto@ + dollars(0));
    }
    let mut i: usize = 0;
    while i < n
        invariant
            i <= n,
            "$"@ == seq!['$'],
            proto@ == old(proto)@ + dollars(i as nat),
        decreases n - i,
    {
        proto.append("$");
        i += 1;
        assert(proto@ =~= old(proto)@ + dollars(i as nat));
    }
}

/// Builds the prototype of a function with `arg_count` parameters, of which the last
/// `trailing_options` scalar ones may be left out and one takes the remaining list where
/// `had_list_param` is set.
pub fn gen_prototype(arg_count: usize, trailing_options: usize, had_list_param: bool) -> (proto:
    String)
    requires
        trailing_options + (if had_list_param {
            1int
        } else {
            0int
        }) <= arg_count,
    ensures
        proto@ == prototype(
            (arg_count - trailing_options - (if had_list_param {
                1int
            } else {
                0int
            })) as nat,
            trailing_options as nat,
            had_list_param,
        ),
{
    proof {
        reveal_strlit(";");
        reveal_strlit("@");
        reveal_strlit(";@");
    }
    let list_count: usize = if had_list_param {
        1
    } else {
        0
    };
    let arg_count = arg_count - trailing_options - list_count;

    let mut proto = String::new();
    push_dollars(&mut proto, arg_count);
    if trailing_options > 0 {
        proto.append(";");
        push_dollars(&mut proto, trailing_options);
        if had_list_param {
            proto.append("@");
        }
    } else if had_list_param {
        proto.append(";@");
    }
    assert(proto@ =~= prototype(arg_count as nat, trailing_options as nat, had_list_param));
    proto
}

/// A prototype starts with one dollar sign for each parameter that has to be given, and the
/// semicolon, where there is one, follows right behind them.
pub proof fn law_required_parameters_come_first(required: nat, optional: nat, list: bool)
    ensures
        prototype(required, optional, list).take(required as int) == dollars(required),
        prototype(required, optional, list).len() == required || prototype(
            required,
            optional,
            list,
        )[required as int] == ';',
        forall|i: int|
            0 <= i < prototype(required, optional, list).len() && #[trigger] prototype(
                required,
                optional,
                list,
            )[i] == ';' ==> i == required,
{
    assert(prototype(required, optional, list).take(required as int) =~= dollars(required));
}

/// A prototype ends in `@` exactly where the function takes a list, and has no other `@`.
pub proof fn law_list_marker_comes_last(required: nat, optional: nat, list: bool)
    ensures
        list <==> prototype(required, optional, list).contains('@'),
        forall|i: int|
            0 <= i < prototype(required, optional, list).len() && #[trigger] prototype(
                required,
                optional,
                list,
            )[i] == '@' ==> i == prototype(required, optional, list).len() - 1,
{
    let p = prototype(required, optional, list);
    if list {
        assert(p[p.len() - 1] == '@');
    }
}

/// A prototype has one character for each parameter, and a semicolon more where anything may be
/// left out.
pub proof fn law_prototype_length(required: nat, optional: nat, list: bool)
    ensures
        prototype(required, optional, list).len() == required + optional + (if list {
            1int
        } else {
            0
        }) + (if optional > 0 || list {
            1int
        } else {
            0
        }),
{
}

/// A prototype has one dollar sign for each scalar parameter.
pub proof fn law_one_dollar_per_scalar(required: nat, optional: nat, list: bool)
    ensures
        prototype(required, optional, list).filter(|c: char| c == '$').len() == required + optional,
{
    let is_dollar = |c: char| c == '$';
    let marker: Seq<char> = if optional > 0 || list {
        seq![';']
    } else {
        seq![]
    };
    let end: Seq<char> = if list {
        seq!['@']
    } else {
        seq![]
    };
    lemma_dollars_are_dollars(required);
    lemma_dollars_are_dollars(optional);
    Seq::filter_distributes_over_add(
        dollars(required) + marker + dollars(optional),
        end,
        is_dollar,
    );
    Seq::filter_distributes_over_add(dollars(required) + marker, dollars(optional), is_dollar);
    Seq::filter_distributes_over_add(dollars(required), marker, is_dollar);
    reveal_with_fuel(Seq::filter, 2);
    assert(marker.len() > 0 ==> marker.drop_last() =~= Seq::empty());
    assert(end.len() > 0 ==> end.drop_last() =~= Seq::empty());
}

proof fn lemma_dollars_are_dollars(n: nat)
    ensures
        dollars(n).filter(|c: char| c == '$').len() == n,
    decreases n,
{
    reveal(Seq::filter);
    if n > 0 {
        lemma_dollars_are_dollars((n - 1) as nat);
        assert(dollars(n).drop_last() =~= dollars((n - 1) as nat));
    }
}

/// A prototype tells how many parameters have to be given, how many may be left out, and whether
/// a list is taken.
pub proof fn law_prototype_is_unambiguous(
    required1: nat,
    optional1: nat,
    list1: bool,
    required2: nat,
    optional2: nat,
    list2: bool,
)
    requires
        prototype(required1, optional1, list1) == prototype(required2, optional2, list2),
    ensures
        required1 == required2,
        optional1 == optional2,
        list1 == list2,
{
    law_required_parameters_come_first(required1, optional1, list1);
    law_required_parameters_come_first(required2, optional2, list2);
    law_list_marker_comes_last(required1, optional1, list1);
    law_list_marker_comes_last(required2, optional2, list2);
    law_prototype_length(required1, optional1, list1);
    law_prototype_length(required2, optional2, list2);
    let p = prototype(required1, optional1, list1);
    if required1 < p.len() {
        assert(p[required1 as int] == ';');
    }
    if required2 < p.len() {
        assert(p[required2 as int] == ';');
    }
}

} // verus!
