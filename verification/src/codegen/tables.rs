//! Tables of properties whose CloudFormation schema says less than is known
//! of them.
use vstd::prelude::*;

use crate::keyed;
use crate::text;

verus! {

/// Rows of a key and a value, looked up by key.
pub struct Table<T> {
    pub rows: Vec<(&'static str, T)>,
}

/// The index of the first row with the key, from `from` on.
pub open spec fn row_from<T>(rows: Seq<(&'static str, T)>, key: Seq<char>, from: int) -> Option<int>
    decreases rows.len() - from,
{
    if from < 0 || from >= rows.len() {
        None
    } else if rows[from].0@ == key {
        Some(from)
    } else {
        row_from(rows, key, from + 1)
    }
}

impl<T> Table<T> {
    /// The value of the first row with the key.
    pub open spec fn value_of(self, key: Seq<char>) -> Option<T> {
        match row_from(self.rows@, key, 0) {
            Some(i) => Some(self.rows@[i].1),
            None => None,
        }
    }

    pub fn get(&self, key: &str) -> (r: Option<&T>)
        ensures
            match r {
                Some(v) => self.value_of(key@) == Some(*v),
                None => self.value_of(key@) is None,
            },
    {
        let mut i: usize = 0;
        while i < self.rows.len()
            invariant
                i <= self.rows.len(),
                row_from(self.rows@, key@, 0) == row_from(self.rows@, key@, i as int),
            decreases self.rows.len() - i,
        {
            if text::same(self.rows[i].0, key) {
                return Some(&self.rows[i].1);
            }
            i = i + 1;
        }
        None
    }
}

/// Finding a row by key depends on the keys alone.
proof fn lemma_row_from<T, W>(
    rows: Seq<(&'static str, T)>,
    table: Seq<(Seq<char>, W)>,
    key: Seq<char>,
    from: int,
)
    requires
        0 <= from,
        rows.len() == table.len(),
        forall|i: int| 0 <= i < rows.len() ==> rows[i].0@ == table[i].0,
    ensures
        row_from(rows, key, from) == keyed::index_from(table, key, from),
        keyed::index_from(table, key, from) matches Some(i) ==> from <= i < table.len(),
    decreases rows.len() - from,
{
    if from < rows.len() && rows[from].0@ != key {
        lemma_row_from(rows, table, key, from + 1);
    }
}

/// The values of properties that are enums although their descriptions do not
/// list the values in a recognised form.
pub open spec fn enum_table() -> Seq<(Seq<char>, Seq<Seq<char>>)> {
    seq![
        ("IpProtocol"@, seq!["tcp"@, "udp"@, "icmp"@, "icmpv6"@, "-1"@]),
        ("ConnectivityType"@, seq!["public"@, "private"@]),
        ("AvailabilityMode"@, seq!["zonal"@, "regional"@]),
        ("AddressFamily"@, seq!["IPv4"@, "IPv6"@]),
        ("Domain"@, seq!["vpc"@, "standard"@]),
        ("HostnameType"@, seq!["ip-name"@, "resource-name"@]),
        ("AutoAcceptSharedAttachments"@, seq!["enable"@, "disable"@]),
        ("DefaultRouteTableAssociation"@, seq!["enable"@, "disable"@]),
        ("DefaultRouteTablePropagation"@, seq!["enable"@, "disable"@]),
        ("DnsSupport"@, seq!["enable"@, "disable"@]),
        ("MulticastSupport"@, seq!["enable"@, "disable"@]),
        ("SecurityGroupReferencingSupport"@, seq!["enable"@, "disable"@]),
        ("VpnEcmpSupport"@, seq!["enable"@, "disable"@]),
    ]
}

/// Ranges of integer properties that are known although the schema gives none.
pub open spec fn int_range_table() -> Seq<(Seq<char>, (i64, i64))> {
    seq![
        ("Ipv4NetmaskLength"@, (0i64, 32i64)),
        ("Ipv6NetmaskLength"@, (0i64, 128i64)),
        ("FromPort"@, (-1i64, 65535i64)),
        ("ToPort"@, (-1i64, 65535i64)),
        ("MaxSessionDuration"@, (3600i64, 43200i64)),
    ]
}

/// Types of string properties that are known by the property's name.
pub open spec fn string_type_table() -> Seq<(Seq<char>, Seq<char>)> {
    seq![
        ("DefaultSecurityGroup"@, "super::security_group_id()"@),
        ("DefaultNetworkAcl"@, "super::aws_resource_id()"@),
        ("DeliverCrossAccountRole"@, "super::iam_role_arn()"@),
        ("DeliverLogsPermissionArn"@, "super::iam_role_arn()"@),
        ("PeerRoleArn"@, "super::iam_role_arn()"@),
        ("PermissionsBoundary"@, "super::iam_policy_arn()"@),
        ("ManagedPolicyArns"@, "super::iam_policy_arn()"@),
        ("KmsKeyId"@, "super::kms_key_arn()"@),
        ("KMSMasterKeyID"@, "super::kms_key_id()"@),
        ("ReplicaKmsKeyID"@, "super::kms_key_id()"@),
        ("KmsKeyArn"@, "super::kms_key_arn()"@),
    ]
}

/// The rows of an enum table as plain values.
pub open spec fn enum_rows(rows: Seq<(&'static str, Vec<&'static str>)>) -> Seq<(Seq<char>, Seq<Seq<char>>)> {
    Seq::new(rows.len(), |i: int| (rows[i].0@, text::slices(rows[i].1@)))
}

/// The rows of a range table as plain values.
pub open spec fn range_rows(rows: Seq<(&'static str, (i64, i64))>) -> Seq<(Seq<char>, (i64, i64))> {
    Seq::new(rows.len(), |i: int| (rows[i].0@, rows[i].1))
}

/// The rows of a type table as plain values.
pub open spec fn type_rows(rows: Seq<(&'static str, &'static str)>) -> Seq<(Seq<char>, Seq<char>)> {
    Seq::new(rows.len(), |i: int| (rows[i].0@, rows[i].1@))
}

fn two(a: &'static str, b: &'static str) -> (r: Vec<&'static str>)
    ensures
        text::slices(r@) == seq![a@, b@],
{
    let r = vec![a, b];
    assert(text::slices(r@) =~= seq![a@, b@]);
    r
}

fn enum_row(rows: &mut Vec<(&'static str, Vec<&'static str>)>, name: &'static str, values: Vec<&'static str>)
    ensures
        enum_rows(final(rows)@) == enum_rows(old(rows)@).push((name@, text::slices(values@))),
{
    rows.push((name, values));
    assert(enum_rows(rows@) =~= enum_rows(old(rows)@).push((name@, text::slices(values@))));
}

/// The enum table.
pub fn known_enum_overrides() -> (r: Table<Vec<&'static str>>)
    ensures
        enum_rows(r.rows@) == enum_table(),
{
    let mut rows: Vec<(&'static str, Vec<&'static str>)> = Vec::new();
    assert(enum_rows(rows@) =~= Seq::empty());
    let protocols = vec!["tcp", "udp", "icmp", "icmpv6", "-1"];
    assert(text::slices(protocols@) =~= seq!["tcp"@, "udp"@, "icmp"@, "icmpv6"@, "-1"@]);
    enum_row(&mut rows, "IpProtocol", protocols);
    enum_row(&mut rows, "ConnectivityType", two("public", "private"));
    enum_row(&mut rows, "AvailabilityMode", two("zonal", "regional"));
    enum_row(&mut rows, "AddressFamily", two("IPv4", "IPv6"));
    enum_row(&mut rows, "Domain", two("vpc", "standard"));
    enum_row(&mut rows, "HostnameType", two("ip-name", "resource-name"));
    enum_row(&mut rows, "AutoAcceptSharedAttachments", two("enable", "disable"));
    enum_row(&mut rows, "DefaultRouteTableAssociation", two("enable", "disable"));
    enum_row(&mut rows, "DefaultRouteTablePropagation", two("enable", "disable"));
    enum_row(&mut rows, "DnsSupport", two("enable", "disable"));
    enum_row(&mut rows, "MulticastSupport", two("enable", "disable"));
    enum_row(&mut rows, "SecurityGroupReferencingSupport", two("enable", "disable"));
    enum_row(&mut rows, "VpnEcmpSupport", two("enable", "disable"));
    Table { rows }
}

/// The range table.
pub fn known_int_range_overrides() -> (r: Table<(i64, i64)>)
    ensures
        range_rows(r.rows@) == int_range_table(),
{
    let rows: Vec<(&'static str, (i64, i64))> = vec![
        ("Ipv4NetmaskLength", (0, 32)),
        ("Ipv6NetmaskLength", (0, 128)),
        ("FromPort", (-1, 65535)),
        ("ToPort", (-1, 65535)),
        ("MaxSessionDuration", (3600, 43200)),
    ];
    assert(range_rows(rows@) =~= int_range_table());
    Table { rows }
}

/// The string type table.
pub fn known_string_type_overrides() -> (r: Table<&'static str>)
    ensures
        type_rows(r.rows@) == string_type_table(),
{
    let rows: Vec<(&'static str, &'static str)> = vec![
        ("DefaultSecurityGroup", "super::security_group_id()"),
        ("DefaultNetworkAcl", "super::aws_resource_id()"),
        ("DeliverCrossAccountRole", "super::iam_role_arn()"),
        ("DeliverLogsPermissionArn", "super::iam_role_arn()"),
        ("PeerRoleArn", "super::iam_role_arn()"),
        ("PermissionsBoundary", "super::iam_policy_arn()"),
        ("ManagedPolicyArns", "super::iam_policy_arn()"),
        ("KmsKeyId", "super::kms_key_arn()"),
        ("KMSMasterKeyID", "super::kms_key_id()"),
        ("ReplicaKmsKeyID", "super::kms_key_id()"),
        ("KmsKeyArn", "super::kms_key_arn()"),
    ];
    assert(type_rows(rows@) =~= string_type_table());
    Table { rows }
}

/// The values that the enum table has for a property.
pub fn enum_override(prop_name: &str) -> (r: Option<Vec<String>>)
    ensures
        match r {
            Some(v) => keyed::lookup(enum_table(), prop_name@) == Some(text::strings(v@)),
            None => keyed::lookup(enum_table(), prop_name@) is None,
        },
{
    let table = known_enum_overrides();
    proof {
        assert(forall|i: int| 0 <= i < table.rows@.len() ==> enum_rows(table.rows@)[i].0 == table.rows@[i].0@);
        lemma_row_from(table.rows@, enum_rows(table.rows@), prop_name@, 0);
    }
    match table.get(prop_name) {
        Some(values) => {
            let mut out: Vec<String> = Vec::new();
            let mut i: usize = 0;
            while i < values.len()
                invariant
                    i <= values.len(),
                    text::strings(out@) == text::slices(values@).take(i as int),
                decreases values.len() - i,
            {
                let ghost before = text::strings(out@);
                out.push(values[i].to_owned());
                assert(text::strings(out@) =~= before.push(values@[i as int]@));
                i = i + 1;
                assert(text::strings(out@) =~= text::slices(values@).take(i as int));
            }
            assert(text::slices(values@).take(i as int) =~= text::slices(values@));
            Some(out)
        },
        None => None,
    }
}

/// The range that the range table has for a property.
pub fn int_range_override(prop_name: &str) -> (r: Option<(i64, i64)>)
    ensures
        r == keyed::lookup(int_range_table(), prop_name@),
{
    let table = known_int_range_overrides();
    proof {
        assert(forall|i: int| 0 <= i < table.rows@.len() ==> range_rows(table.rows@)[i].0 == table.rows@[i].0@);
        lemma_row_from(table.rows@, range_rows(table.rows@), prop_name@, 0);
    }
    match table.get(prop_name) {
        Some(range) => Some(*range),
        None => None,
    }
}

/// The type that the string type table has for a property.
pub fn string_type_override(prop_name: &str) -> (r: Option<&'static str>)
    ensures
        text::opt_slice(r) == keyed::lookup(string_type_table(), prop_name@),
{
    let table = known_string_type_overrides();
    proof {
        assert(forall|i: int| 0 <= i < table.rows@.len() ==> type_rows(table.rows@)[i].0 == table.rows@[i].0@);
        lemma_row_from(table.rows@, type_rows(table.rows@), prop_name@, 0);
    }
    match table.get(prop_name) {
        Some(t) => Some(*t),
        None => None,
    }
}

} // verus!
