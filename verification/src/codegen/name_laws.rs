//! What the names of properties say of their values.
use vstd::prelude::*;

use crate::codegen::casing;
use crate::codegen::names;
use crate::codegen::names::ResourceIdKind;
use crate::codegen::tables;
use crate::keyed;
use crate::text;

verus! {

/// What the names of identifiers end in.
pub open spec fn endings() -> Seq<Seq<char>> {
    seq![
        "vpcid"@,
        "subnetid"@,
        "groupid"@,
        "gatewayid"@,
        "routetableid"@,
        "allocationid"@,
        "networkinterfaceid"@,
        "instanceid"@,
        "endpointid"@,
        "connectionid"@,
        "prefixlistid"@,
        "eniid"@,
    ]
}

/// A text behind another finishes both.
pub proof fn lemma_finishes(front: Seq<char>, back: Seq<char>)
    ensures
        text::finishes_with(front + back, back),
        text::holds(front + back, back),
{
    let s = front + back;
    assert(s.subrange(s.len() - back.len(), s.len() as int) =~= back);
    assert(text::stands_at(s, back, s.len() - back.len()));
}

/// A name that ends like an identifier is the name of one, in the singular and in
/// the plural, unless it speaks of an owner or an availability zone.
pub proof fn law_identifiers_are_known_by_their_endings(front: Seq<char>, k: int)
    requires
        0 <= k < endings().len(),
    ensures
        ({
            let one = front + endings()[k];
            let many = front + endings()[k] + "s"@;
            &&& !text::holds(one, "owner"@) && !text::holds(one, "availabilityzone"@) ==> names::names_resource_id(one)
            &&& !text::holds(many, "owner"@) && !text::holds(many, "availabilityzone"@) ==> names::names_resource_id(many)
        }),
{
    let e = endings()[k];
    let one = front + e;
    let many = one + "s"@;
    assert(endings() =~= names::id_endings());
    lemma_ending(k);
    lemma_finishes(front, e);
    lemma_no_ending_of_resource_id(front, k);
    assert(one[one.len() - 1] == 'd' && one[one.len() - 2] == 'i');
    lemma_many(one);
    assert(names::id_endings()[k] == e);
}

proof fn lemma_many(one: Seq<char>)
    requires
        one.len() >= 2,
        one[one.len() - 1] == 'd',
        one[one.len() - 2] == 'i',
    ensures
        one + "s"@ != "resourceid"@,
        names::singular_id(one + "s"@) == one,
{
    let many = one + "s"@;
    reveal_strlit("resourceid");
    reveal_strlit("s");
    reveal_strlit("ids");
    assert(many.last() == 's');
    assert("resourceid"@.last() == 'd');
    assert(many.subrange(many.len() - 3, many.len() as int) =~= "ids"@);
    assert(text::finishes_with(many, "ids"@));
    assert(many.take(many.len() - 1) =~= one);
}

proof fn lemma_ending(k: int)
    requires
        0 <= k < endings().len(),
    ensures
        endings()[k].len() >= 5,
        endings()[k][endings()[k].len() - 1] == 'd',
        endings()[k][endings()[k].len() - 2] == 'i',
{
    reveal_strlit("vpcid");
    reveal_strlit("subnetid");
    reveal_strlit("groupid");
    reveal_strlit("gatewayid");
    reveal_strlit("routetableid");
    reveal_strlit("allocationid");
    reveal_strlit("networkinterfaceid");
    reveal_strlit("instanceid");
    reveal_strlit("endpointid");
    reveal_strlit("connectionid");
    reveal_strlit("prefixlistid");
    reveal_strlit("eniid");
    assert("vpcid"@.len() == 5 && "vpcid"@[4] == 'd' && "vpcid"@[3] == 'i');
    assert("subnetid"@.len() == 8 && "subnetid"@[7] == 'd' && "subnetid"@[6] == 'i');
    assert("groupid"@.len() == 7 && "groupid"@[6] == 'd' && "groupid"@[5] == 'i');
    assert("gatewayid"@.len() == 9 && "gatewayid"@[8] == 'd' && "gatewayid"@[7] == 'i');
    assert("routetableid"@.len() == 12 && "routetableid"@[11] == 'd' && "routetableid"@[10] == 'i');
    assert("allocationid"@.len() == 12 && "allocationid"@[11] == 'd' && "allocationid"@[10] == 'i');
    assert("networkinterfaceid"@.len() == 18 && "networkinterfaceid"@[17] == 'd' && "networkinterfaceid"@[16] == 'i');
    assert("instanceid"@.len() == 10 && "instanceid"@[9] == 'd' && "instanceid"@[8] == 'i');
    assert("endpointid"@.len() == 10 && "endpointid"@[9] == 'd' && "endpointid"@[8] == 'i');
    assert("connectionid"@.len() == 12 && "connectionid"@[11] == 'd' && "connectionid"@[10] == 'i');
    assert("prefixlistid"@.len() == 12 && "prefixlistid"@[11] == 'd' && "prefixlistid"@[10] == 'i');
    assert("eniid"@.len() == 5 && "eniid"@[4] == 'd' && "eniid"@[3] == 'i');
}

proof fn lemma_no_ending_of_resource_id(front: Seq<char>, k: int)
    requires
        0 <= k < endings().len(),
    ensures
        front + endings()[k] != "resourceid"@,
{
    lemma_ending(k);
    let e = endings()[k];
    let s = front + e;
    reveal_strlit("resourceid");
    if s == "resourceid"@ {
        assert(s[s.len() - 3] == 'e' && s[s.len() - 4] == 'c' && s[s.len() - 5] == 'r');
        assert(e[e.len() - 3] == 'e' && e[e.len() - 5] == 'r');
        lemma_last_letters(k);
    }
}

proof fn lemma_last_letters(k: int)
    requires
        0 <= k < endings().len(),
    ensures
        endings()[k][endings()[k].len() - 3] != 'e' || endings()[k][endings()[k].len() - 5] != 'r',
{
    reveal_strlit("vpcid");
    reveal_strlit("subnetid");
    reveal_strlit("groupid");
    reveal_strlit("gatewayid");
    reveal_strlit("routetableid");
    reveal_strlit("allocationid");
    reveal_strlit("networkinterfaceid");
    reveal_strlit("instanceid");
    reveal_strlit("endpointid");
    reveal_strlit("connectionid");
    reveal_strlit("prefixlistid");
    reveal_strlit("eniid");
    assert("vpcid"@.len() == 5 && "vpcid"@[2] == 'c');
    assert("subnetid"@.len() == 8 && "subnetid"@[5] == 't');
    assert("groupid"@.len() == 7 && "groupid"@[4] == 'p');
    assert("gatewayid"@.len() == 9 && "gatewayid"@[6] == 'y');
    assert("routetableid"@.len() == 12 && "routetableid"@[7] == 'b');
    assert("allocationid"@.len() == 12 && "allocationid"@[9] == 'n');
    assert("networkinterfaceid"@.len() == 18 && "networkinterfaceid"@[13] == 'a');
    assert("instanceid"@.len() == 10 && "instanceid"@[5] == 'n');
    assert("endpointid"@.len() == 10 && "endpointid"@[7] == 't');
    assert("connectionid"@.len() == 12 && "connectionid"@[9] == 'n');
    assert("prefixlistid"@.len() == 12 && "prefixlistid"@[9] == 't');
    assert("eniid"@.len() == 5 && "eniid"@[2] == 'i');
}

/// What the names of identifiers hold that are told apart by it, from the more
/// special to the more general, with the kinds that they stand for.
pub open spec fn words() -> Seq<(Seq<char>, ResourceIdKind)> {
    seq![
        ("egressonlyinternetgateway"@, ResourceIdKind::EgressOnlyInternetGatewayId),
        ("internetgateway"@, ResourceIdKind::InternetGatewayId),
        ("routetable"@, ResourceIdKind::RouteTableId),
        ("natgateway"@, ResourceIdKind::NatGatewayId),
        ("peeringconnection"@, ResourceIdKind::VpcPeeringConnectionId),
        ("transitgateway"@, ResourceIdKind::TransitGatewayId),
        ("vpngateway"@, ResourceIdKind::VpnGatewayId),
        ("vpcendpoint"@, ResourceIdKind::VpcEndpointId),
    ]
}

/// What a name ends in tells identifiers of VPCs and subnets apart. Of the other
/// names that end in `id`, one with a group stands for a security group, and else
/// the first of the words decides that it holds. A name with none of them, or one
/// that does not end in `id`, stands for no kind in particular.
pub proof fn law_kinds_are_known_by_their_words(front: Seq<char>, lower: Seq<char>, k: int)
    requires
        0 <= k < words().len(),
    ensures
        names::kind_of(front + "vpcid"@) == ResourceIdKind::VpcId,
        names::kind_of(front + "subnetid"@) == ResourceIdKind::SubnetId,
        !text::finishes_with(lower, "id"@) && !text::finishes_with(lower, "vpcid"@) && !text::finishes_with(
            lower,
            "subnetid"@,
        ) ==> names::kind_of(lower) == ResourceIdKind::Generic,
        ({
            let other = text::finishes_with(lower, "id"@) && !text::finishes_with(lower, "vpcid"@)
                && !text::finishes_with(lower, "subnetid"@);
            let group = text::holds(lower, "securitygroup"@) || text::holds(lower, "groupid"@);
            &&& other && group ==> names::kind_of(lower) == ResourceIdKind::SecurityGroupId
            &&& other && !group && text::holds(lower, words()[k].0) && (forall|j: int|
                0 <= j < k ==> !text::holds(lower, (#[trigger] words()[j]).0)) ==> names::kind_of(lower) == words()[k].1
            &&& other && !group && (forall|j: int|
                0 <= j < words().len() ==> !text::holds(lower, (#[trigger] words()[j]).0)) ==> names::kind_of(lower)
                == ResourceIdKind::Generic
        }),
{
    lemma_finishes(front, "vpcid"@);
    lemma_finishes(front, "subnetid"@);
    reveal_strlit("vpcid");
    reveal_strlit("subnetid");
    let s = front + "subnetid"@;
    if text::finishes_with(s, "vpcid"@) {
        let back = s.subrange(s.len() - 5, s.len() as int);
        assert(back[0] == 'v');
        assert(s[s.len() - 5] == 'n');
    }
    let w = words();
    if forall|j: int| 0 <= j < k ==> !text::holds(lower, (#[trigger] words()[j]).0) {
        assert(k > 0 ==> !text::holds(lower, words()[0].0));
        assert(k > 1 ==> !text::holds(lower, words()[1].0));
        assert(k > 2 ==> !text::holds(lower, words()[2].0));
        assert(k > 3 ==> !text::holds(lower, words()[3].0));
        assert(k > 4 ==> !text::holds(lower, words()[4].0));
        assert(k > 5 ==> !text::holds(lower, words()[5].0));
        assert(k > 6 ==> !text::holds(lower, words()[6].0));
    }
    if forall|j: int| 0 <= j < w.len() ==> !text::holds(lower, (#[trigger] words()[j]).0) {
        assert(!text::holds(lower, words()[0].0));
        assert(!text::holds(lower, words()[1].0));
        assert(!text::holds(lower, words()[2].0));
        assert(!text::holds(lower, words()[3].0));
        assert(!text::holds(lower, words()[4].0));
        assert(!text::holds(lower, words()[5].0));
        assert(!text::holds(lower, words()[6].0));
        assert(!text::holds(lower, words()[7].0));
    }
    assert(k == 0 || k == 1 || k == 2 || k == 3 || k == 4 || k == 5 || k == 6 || k == 7);
}

/// What the name of a property says of the type of a text: the ARN of a role is one
/// of a role, a name of the table has the type of the table, and else a name that
/// reads like an ARN or like an identifier has that type. Other names say nothing.
pub proof fn law_names_give_types(name: Seq<char>, lower: Seq<char>, resource_type: Seq<char>)
    ensures
        ({
            let t = names::inferred_type(name, lower, resource_type);
            let role = resource_type == "AWS::IAM::Role"@ && name == "Arn"@;
            let known = keyed::lookup(tables::string_type_table(), name);
            &&& role ==> t == Some("super::iam_role_arn()"@)
            &&& !role && known is Some ==> t == known
            &&& !role && known is None && names::names_arn(lower) ==> t == Some("super::arn()"@)
            &&& !role && known is None && !names::names_arn(lower) && names::names_resource_id(lower) ==> t == Some(
                "super::"@ + casing::snake_case(names::display_of_kind(names::kind_of(lower))) + "()"@,
            )
            &&& t is None <==> !role && known is None && !names::names_arn(lower) && !names::names_resource_id(lower)
        }),
{
    names::law_type_is_named_like_display(lower);
}

/// A name that ends in `arn` or `arns`, or holds it behind an underscore, stands for
/// ARNs. One that holds `ipaddress` or ends in `ip` stands for addresses, unless it
/// speaks of a range, a count or a type. One that ends in `poolid` stands for a
/// pool, unless it speaks of an owner or an availability zone.
pub proof fn law_other_names_are_known_by_their_endings(front: Seq<char>, back: Seq<char>)
    ensures
        names::names_arn(front + "arn"@),
        names::names_arn(front + "arns"@),
        names::names_arn(front + "_arn"@ + back),
        ({
            let s = front + "ipaddress"@ + back;
            names::names_ip_address(s) <==> !text::holds(s, "cidr"@) && !text::holds(s, "count"@) && !text::holds(
                s,
                "type"@,
            )
        }),
        ({
            let s = front + "ip"@;
            names::names_ip_address(s) <==> !text::holds(s, "cidr"@) && !text::holds(s, "count"@) && !text::holds(
                s,
                "type"@,
            )
        }),
        ({
            let s = front + "poolid"@;
            names::names_ipam_pool_id(s) <==> !text::holds(s, "owner"@) && !text::holds(s, "availabilityzone"@)
        }),
{
    lemma_finishes(front, "arn"@);
    lemma_finishes(front, "arns"@);
    lemma_finishes(front, "ip"@);
    lemma_finishes(front, "poolid"@);
    lemma_inside(front, "_arn"@, back);
    lemma_inside(front, "ipaddress"@, back);
    reveal_strlit("poolid");
    reveal_strlit("resourceid");
    let s = front + "poolid"@;
    assert(s[s.len() - 3] == 'l');
    assert("resourceid"@.len() == 10 && "resourceid"@[7] == 'e');
}

proof fn lemma_inside(front: Seq<char>, part: Seq<char>, back: Seq<char>)
    ensures
        text::holds(front + part + back, part),
{
    let s = front + part + back;
    let n: int = front.len() as int;
    assert(s.subrange(n, n + part.len()) =~= part);
    assert(text::stands_at(s, part, n));
}

/// The plural of identifiers and ARNs has one letter more than the singular, and a
/// page calls its type what it calls the type of the singular, where the tables do
/// not know the plural. Other names stay as they are.
pub proof fn law_plurals_are_shown_like_singulars(front: Seq<char>)
    ensures
        names::singular_name(front + "Ids"@) == front + "Id"@,
        names::singular_name(front + "ids"@) == front + "id"@,
        names::singular_name(front + "Arns"@) == front + "Arn"@,
        names::singular_name(front + "arns"@) == front + "arn"@,
        front.len() > 0 && front.last() != 's' ==> names::singular_name(front) == front,
        keyed::lookup(tables::string_type_table(), front + "Ids"@) is None ==> names::string_display(front + "Ids"@)
            == names::string_display(front + "Id"@),
        keyed::lookup(tables::string_type_table(), front + "Arns"@) is None ==> names::string_display(front + "Arns"@)
            == names::string_display(front + "Arn"@),
{
    lemma_singular(front);
    lemma_letters();
    lemma_finishes(front, "Ids"@);
    lemma_finishes(front, "ids"@);
    lemma_finishes(front, "Arns"@);
    lemma_finishes(front, "arns"@);
    lemma_plural(front, "Ids"@, "Id"@);
    lemma_plural(front, "ids"@, "id"@);
    lemma_plural(front, "Arns"@, "Arn"@);
    lemma_plural(front, "arns"@, "arn"@);
    lemma_singular(front + "Id"@);
    lemma_singular(front + "Arn"@);
}

proof fn lemma_letters()
    ensures
        "Ids"@ == "Id"@.push('s'),
        "ids"@ == "id"@.push('s'),
        "Arns"@ == "Arn"@.push('s'),
        "arns"@ == "arn"@.push('s'),
        "Id"@.len() == 2 && "Id"@.last() == 'd',
        "Arn"@.len() == 3 && "Arn"@.last() == 'n',
{
    reveal_strlit("Id");
    reveal_strlit("Arn");
    reveal_strlit("Ids");
    reveal_strlit("ids");
    reveal_strlit("Arns");
    reveal_strlit("arns");
    reveal_strlit("id");
    reveal_strlit("arn");
    assert("Ids"@ =~= "Id"@.push('s'));
    assert("ids"@ =~= "id"@.push('s'));
    assert("Arns"@ =~= "Arn"@.push('s'));
    assert("arns"@ =~= "arn"@.push('s'));
}

proof fn lemma_plural(front: Seq<char>, many: Seq<char>, one: Seq<char>)
    requires
        many == one.push('s'),
    ensures
        (front + many).take((front + many).len() - 1) == front + one,
        one.len() > 0 ==> (front + one).last() == one.last(),
{
    let s = front + many;
    let n: int = s.len() - 1;
    let t = front + one;
    assert(n == t.len());
    assert forall|i: int| 0 <= i < n implies s.take(n)[i] == t[i] by {
        if i >= front.len() {
            assert(many[i - front.len()] == one[i - front.len()]);
        }
    }
    assert(s.take(n) =~= t);
}

proof fn lemma_singular(name: Seq<char>)
    ensures
        name.len() > 0 && name.last() != 's' ==> names::singular_name(name) == name,
{
    reveal_strlit("Ids");
    reveal_strlit("ids");
    reveal_strlit("Arns");
    reveal_strlit("arns");
    let n: int = name.len() as int;
    if text::finishes_with(name, "Ids"@) {
        assert(name.subrange(n - 3, n)[2] == 's');
    }
    if text::finishes_with(name, "ids"@) {
        assert(name.subrange(n - 3, n)[2] == 's');
    }
    if text::finishes_with(name, "Arns"@) {
        assert(name.subrange(n - 4, n)[3] == 's');
    }
    if text::finishes_with(name, "arns"@) {
        assert(name.subrange(n - 4, n)[3] == 's');
    }
}

/// A name of words that begin with capitals is, in snake case, each of its words in
/// lower case, with underscores between them.
pub proof fn law_snake_case_sets_words_apart(front: Seq<char>, word: Seq<char>)
    requires
        casing::is_camel(front + word),
        word.len() > 0,
        forall|i: int| 0 < i < word.len() ==> !casing::is_capital(#[trigger] word[i]),
    ensures
        casing::snake_case(word) == text::lowercase(word),
        front.len() > 0 && casing::is_capital(word[0]) ==> casing::snake_case(front + word) == casing::snake_case(front)
            + "_"@ + text::lowercase(word),
{
    let s = front + word;
    reveal_strlit("_");
    assert forall|i: int| 0 <= i < word.len() implies #[trigger] word[i] == s[front.len() + i] by {}
    assert forall|i: int| 0 <= i < front.len() implies #[trigger] front[i] == s[i] by {}
    assert(casing::is_camel(word)) by {
        assert forall|i: int| 0 < i < word.len() && casing::is_capital(#[trigger] word[i]) implies !casing::is_capital(
            word[i - 1],
        ) by {
            assert(casing::is_capital(s[front.len() + i]));
        }
    }
    assert(casing::is_camel(front)) by {
        assert forall|i: int| 0 < i < front.len() && casing::is_capital(#[trigger] front[i]) implies !casing::is_capital(
            front[i - 1],
        ) by {
            assert(casing::is_capital(s[i]));
        }
    }
    assert forall|i: int| 0 <= i < word.len() implies text::is_ascii(#[trigger] word[i]) by {}
    lemma_small(word, word.len() as int);
    assert(word.take(word.len() as int) =~= word);
    if front.len() > 0 && casing::is_capital(word[0]) {
        lemma_same_front(front, word, front.len() as int);
        lemma_behind(front, word, word.len() as int);
    }
}

proof fn lemma_small(word: Seq<char>, n: int)
    requires
        0 <= n <= word.len(),
        forall|i: int| 0 < i < word.len() ==> !casing::is_capital(#[trigger] word[i]),
        forall|i: int| 0 <= i < word.len() ==> text::is_ascii(#[trigger] word[i]),
    ensures
        casing::snaked(word, n) == text::lowercase(word.take(n)),
    decreases n,
{
    let front = word.take(n);
    assert(text::all_ascii(front));
    if n > 0 {
        lemma_small(word, n - 1);
        assert(text::all_ascii(word.take(n - 1)));
        assert(casing::snaked(word, n) =~= text::lowercase(front));
    } else {
        assert(casing::snaked(word, n) =~= text::lowercase(front));
    }
}

proof fn lemma_same_front(front: Seq<char>, word: Seq<char>, n: int)
    requires
        0 <= n <= front.len(),
    ensures
        casing::snaked(front + word, n) == casing::snaked(front, n),
    decreases n,
{
    if n > 0 {
        lemma_same_front(front, word, n - 1);
        assert((front + word)[n - 1] == front[n - 1]);
    }
}

proof fn lemma_behind(front: Seq<char>, word: Seq<char>, n: int)
    requires
        front.len() > 0,
        1 <= n <= word.len(),
        casing::is_capital(word[0]),
        forall|i: int| 0 < i < word.len() ==> !casing::is_capital(#[trigger] word[i]),
    ensures
        casing::snaked(front + word, front.len() + n) == casing::snaked(front + word, front.len() as int) + seq!['_']
            + casing::snaked(word, n),
    decreases n,
{
    let s = front + word;
    let m: int = front.len() + n;
    assert(s[m - 1] == word[n - 1]);
    let base = casing::snaked(s, front.len() as int);
    if n == 1 {
        reveal_with_fuel(casing::snaked, 2);
        assert(casing::snaked(word, 1) =~= seq![text::ascii_lower(word[0])]);
        assert(casing::snaked(s, m) =~= base + seq!['_'] + casing::snaked(word, 1));
    } else {
        lemma_behind(front, word, n - 1);
        assert(casing::snaked(s, m) =~= base + seq!['_'] + casing::snaked(word, n));
    }
}

} // verus!
