//! What the checks of values accept.
use vstd::prelude::*;

use crate::enums;
use crate::factory;
use crate::keyed;
use crate::schema::{CheckView, ToDslView, TypeView};
use crate::schemas::types;
use crate::text;
use crate::value::ValueView;

verus! {

/// An integer is accepted exactly where it lies within the bounds that there are;
/// both bounds belong to the range. What is no integer is refused.
pub proof fn law_integers_are_checked(v: ValueView, n: i64, min: i64, max: i64)
    ensures
        types::int_fault(ValueView::Int(n), Some(min), Some(max)) is None <==> min <= n <= max,
        types::int_fault(ValueView::Int(n), Some(min), None) is None <==> min <= n,
        types::int_fault(ValueView::Int(n), None, Some(max)) is None <==> n <= max,
        types::int_fault(ValueView::Int(n), None, None) is None,
        !(v is Int) ==> types::int_fault(v, Some(min), Some(max)) == Some("Expected integer"@),
        types::int_fault(ValueView::Int(n), Some(min), Some(max)) matches Some(m) ==> m == "Value "@ + text::decimal(
            n as int,
        ) + " is out of range "@ + text::decimal(min as int) + "..="@ + text::decimal(max as int),
{
    reveal_strlit("..=");
    reveal_strlit("..");
    reveal_strlit("=");
    assert("..="@ =~= ".."@ + "="@);
    let a = text::decimal(min as int);
    let b = text::decimal(max as int);
    assert(a + ".."@ + ("="@ + b) =~= a + "..="@ + b);
    let p = "Value "@ + text::decimal(n as int) + " is out of range "@;
    assert(p + (a + "..="@ + b) =~= p + a + "..="@ + b);
}

/// A text is accepted exactly where its length lies within the bounds, and a list
/// exactly where the number of its items does. The check of lengths has nothing to
/// say of what is no text; the check of lists refuses what is no list.
pub proof fn law_sizes_are_checked(v: ValueView, s: Seq<char>, items: Seq<ValueView>, min: u64, max: u64)
    ensures
        types::length_fault(ValueView::String(s), min, max) is None <==> min <= s.len() <= max,
        !(v is String) ==> types::length_fault(v, min, max) is None,
        types::items_fault(ValueView::List(items), min, max) is None <==> min <= items.len() <= max,
        !(v is List) ==> types::items_fault(v, min, max) == Some("Expected list"@),
{
}

/// A region is accepted by its name, with hyphens or underscores, by itself, behind
/// `Region.` and behind `awscc.Region.`. One that is not listed is refused with the
/// regions that there are.
pub proof fn law_regions_are_checked(region: Seq<char>, regions: Seq<Seq<char>>, v: ValueView)
    requires
        !region.contains('.'),
    ensures
        ({
            let known = regions.contains(text::swapped(region, '_', '-'));
            let bare = types::region_fault(ValueView::String(region), regions);
            let short = types::region_fault(ValueView::String("Region."@ + region), regions);
            let full = types::region_fault(ValueView::String("awscc.Region."@ + region), regions);
            &&& bare is None <==> known
            &&& short is None <==> known
            &&& full is None <==> known
            &&& !known ==> bare == Some(
                "Invalid region '"@ + region + "', expected one of: "@ + text::join(regions, ", "@)
                    + " or DSL format like awscc.Region.ap_northeast_1"@,
            )
        }),
        !(v is String) ==> types::region_fault(v, regions) is Some,
{
    lemma_forms(region, "Region"@);
    assert("Region."@ == "Region"@ + "."@) by {
        reveal_strlit("Region.");
        reveal_strlit("Region");
        reveal_strlit(".");
        assert("Region."@ =~= "Region"@ + "."@);
    }
    assert("awscc.Region."@ == "awscc"@ + "."@ + "Region"@ + "."@) by {
        reveal_strlit("awscc.Region.");
        reveal_strlit("awscc");
        reveal_strlit("Region");
        reveal_strlit(".");
        assert("awscc.Region."@ =~= "awscc"@ + "."@ + "Region"@ + "."@);
    }
}

/// A zone is accepted in the same forms, where it is a listed region with one small
/// letter behind it.
pub proof fn law_zones_are_checked(zone: Seq<char>, regions: Seq<Seq<char>>, v: ValueView, i: int, letter: char)
    requires
        !zone.contains('.'),
    ensures
        ({
            let known = types::is_zone(text::swapped(zone, '_', '-'), regions);
            let bare = types::zone_fault(ValueView::String(zone), regions);
            let short = types::zone_fault(ValueView::String("AvailabilityZone."@ + zone), regions);
            let full = types::zone_fault(ValueView::String("awscc.AvailabilityZone."@ + zone), regions);
            &&& bare is None <==> known
            &&& short is None <==> known
            &&& full is None <==> known
        }),
        0 <= i < regions.len() ==> (types::is_zone(regions[i].push(letter), regions) <==> 'a' <= letter && letter <= 'z'),
        types::is_zone(zone, regions) ==> exists|k: int|
            0 <= k < regions.len() && zone == (#[trigger] regions[k]).push(zone.last()),
        !types::is_zone(Seq::empty(), regions),
        !(v is String) ==> types::zone_fault(v, regions) is Some,
{
    lemma_forms(zone, "AvailabilityZone"@);
    assert("AvailabilityZone."@ == "AvailabilityZone"@ + "."@) by {
        reveal_strlit("AvailabilityZone.");
        reveal_strlit("AvailabilityZone");
        reveal_strlit(".");
        assert("AvailabilityZone."@ =~= "AvailabilityZone"@ + "."@);
    }
    assert("awscc.AvailabilityZone."@ == "awscc"@ + "."@ + "AvailabilityZone"@ + "."@) by {
        reveal_strlit("awscc.AvailabilityZone.");
        reveal_strlit("awscc");
        reveal_strlit("AvailabilityZone");
        reveal_strlit(".");
        assert("awscc.AvailabilityZone."@ =~= "awscc"@ + "."@ + "AvailabilityZone"@ + "."@);
    }
    if 0 <= i < regions.len() {
        assert(regions[i].push(letter).drop_last() =~= regions[i]);
        assert(regions.contains(regions[i]));
    }
    if types::is_zone(zone, regions) {
        let k = choose|k: int| 0 <= k < regions.len() && regions[k] == zone.drop_last();
        assert(zone =~= regions[k].push(zone.last()));
    }
}

proof fn lemma_forms(value: Seq<char>, name: Seq<char>)
    requires
        !value.contains('.'),
    ensures
        enums::namespace_fits(value, name, "awscc"@),
        enums::last_part(value) == value,
        enums::namespace_fits(name + "."@ + value, name, "awscc"@),
        enums::last_part(name + "."@ + value) == value,
        enums::namespace_fits("awscc"@ + "."@ + name + "."@ + value, name, "awscc"@),
        enums::last_part("awscc"@ + "."@ + name + "."@ + value) == value,
{
    let short = name + "."@ + value;
    let full = "awscc"@ + "."@ + name + "."@ + value;
    enums::lemma_last_part(name, value);
    enums::lemma_last_part("awscc"@ + "."@ + name, value);
    let lead = name + "."@;
    assert(short.subrange(0, lead.len() as int) =~= lead);
    let head = "awscc"@ + "."@ + name + "."@;
    assert(full.subrange(0, head.len() as int) =~= head);
    lemma_bare(value);
}

proof fn lemma_bare(value: Seq<char>)
    requires
        !value.contains('.'),
    ensures
        !text::holds(value, "."@),
        enums::last_part(value) == value,
{
    reveal_strlit(".");
    text::lemma_first_from(value, "."@, 0);
    if text::holds(value, "."@) {
        let i = choose|i: int| text::stands_at(value, "."@, i);
        assert(value.subrange(i, i + 1)[0] == '.');
        assert(value[i] == '.');
    }
}

/// The check of a custom type is the one that it names, with the bounds, the values
/// and the namespace that it has. What an enum refuses is named with the enum and
/// the value. A type without a check of these kinds is not judged.
pub proof fn law_custom_types_are_checked(
    name: Seq<char>,
    base: Box<TypeView>,
    namespace: Seq<char>,
    form: Option<ToDslView>,
    values: Seq<Seq<char>>,
    s: Seq<char>,
    v: ValueView,
    regions: Seq<Seq<char>>,
    low: Option<i64>,
    high: Option<i64>,
    least: u64,
    most: u64,
)
    ensures
        types::custom_fault(
            TypeView::Custom { name, base, check: CheckView::IntRange(low, high), namespace: None, to_dsl: form },
            v,
            regions,
        ) == Some(types::int_fault(v, low, high)),
        types::custom_fault(
            TypeView::Custom { name, base, check: CheckView::StringLength(least, most), namespace: None, to_dsl: form },
            v,
            regions,
        ) == Some(types::length_fault(v, least, most)),
        types::custom_fault(
            TypeView::Custom { name, base, check: CheckView::ListItems(least, most), namespace: None, to_dsl: form },
            v,
            regions,
        ) == Some(types::items_fault(v, least, most)),
        types::custom_fault(
            TypeView::Custom { name, base, check: CheckView::Region, namespace: Some(namespace), to_dsl: form },
            v,
            regions,
        ) == Some(types::region_fault(v, regions)),
        types::custom_fault(
            TypeView::Custom { name, base, check: CheckView::Zone, namespace: Some(namespace), to_dsl: form },
            v,
            regions,
        ) == Some(types::zone_fault(v, regions)),
        ({
            let t = TypeView::Custom {
                name,
                base,
                check: CheckView::NamespacedEnum(values),
                namespace: Some(namespace),
                to_dsl: form,
            };
            let fault = enums::enum_fault(ValueView::String(s), name, namespace, values);
            types::custom_fault(t, ValueView::String(s), regions) == Some(
                match fault {
                    None => None,
                    Some(reason) => Some("Invalid "@ + name + " '"@ + s + "': "@ + reason),
                },
            )
        }),
{
}

/// The region of a configuration is what stands behind `awscc.Region.` or
/// `aws.Region.`, with hyphens for underscores. Another text is taken as it is, and
/// where there is no text the region is Tokyo.
pub proof fn law_regions_are_taken_from_the_configuration(attributes: Seq<(Seq<char>, ValueView)>, name: Seq<char>)
    ensures
        keyed::lookup(attributes, "region"@) == Some(ValueView::String("awscc.Region."@ + name)) ==> factory::region_of(
            attributes,
        ) == text::swapped(name, '_', '-'),
        keyed::lookup(attributes, "region"@) == Some(ValueView::String("aws.Region."@ + name)) ==> factory::region_of(
            attributes,
        ) == text::swapped(name, '_', '-'),
        keyed::lookup(attributes, "region"@) == Some(ValueView::String(name)) && !name.contains('.')
            ==> factory::region_of(attributes) == name,
        keyed::lookup(attributes, "region"@) is None ==> factory::region_of(attributes) == "ap-northeast-1"@,
{
    let a = "awscc.Region."@;
    let b = "aws.Region."@;
    reveal_strlit("awscc.Region.");
    reveal_strlit("aws.Region.");
    assert((a + name).subrange(0, a.len() as int) =~= a);
    assert((a + name).skip(a.len() as int) =~= name);
    assert((b + name).subrange(0, b.len() as int) =~= b);
    assert((b + name).skip(b.len() as int) =~= name);
    if text::begins_with(b + name, a) {
        assert((b + name).subrange(0, 13)[3] == 'c');
        assert((b + name)[3] == '.');
    }
    if text::begins_with(name, a) {
        assert(name.subrange(0, 13)[5] == '.');
        assert(name[5] == '.');
    }
    if text::begins_with(name, b) {
        assert(name.subrange(0, 11)[3] == '.');
        assert(name[3] == '.');
    }
}

} // verus!
