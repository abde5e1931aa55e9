//! What a reference page says of a resource type, and how it agrees with the
//! generated code.
use vstd::prelude::*;

use crate::codegen::casing;
use crate::codegen::model;
use crate::codegen::model::{CfnDefinition, CfnProperty, CfnSchema, EnumView};
use crate::codegen::names;
use crate::codegen::page;
use crate::codegen::page::StructDefView;
use crate::codegen::tables;
use crate::codegen::type_laws;
use crate::codegen::types;
use crate::keyed;
use crate::text;
use crate::text_laws;

verus! {

/// A type that a name gives is a call of a function, so that its code begins with
/// the module of the function.
proof fn lemma_named_codes()
    ensures
        forall|k: names::ResourceIdKind| #[trigger] names::type_of_kind(k).len() > 0 && names::type_of_kind(k)[0] == 's',
        forall|n: Seq<char>|
            #[trigger] keyed::lookup(tables::string_type_table(), n) matches Some(t) ==> t.len() > 0 && t[0] == 's',
        "super::arn()"@[0] == 's' && "super::arn()"@.len() > 0,
        "super::iam_role_arn()"@[0] == 's' && "super::iam_role_arn()"@.len() > 0,
        "super::iam_policy_document()"@[0] == 's' && "super::iam_policy_document()"@.len() > 0,
        "super::ipam_pool_id()"@[0] == 's' && "super::ipam_pool_id()"@.len() > 0,
        "super::availability_zone()"@[0] == 's' && "super::availability_zone()"@.len() > 0,
        "types::ipv6_cidr()"@[0] == 't' && "types::ipv6_cidr()"@.len() > 0,
        "types::ipv4_cidr()"@[0] == 't' && "types::ipv4_cidr()"@.len() > 0,
        "types::ipv6_address()"@[0] == 't' && "types::ipv6_address()"@.len() > 0,
        "types::ipv4_address()"@[0] == 't' && "types::ipv4_address()"@.len() > 0,
{
    reveal_strlit("super::vpc_id()");
    reveal_strlit("super::subnet_id()");
    reveal_strlit("super::security_group_id()");
    reveal_strlit("super::egress_only_internet_gateway_id()");
    reveal_strlit("super::internet_gateway_id()");
    reveal_strlit("super::route_table_id()");
    reveal_strlit("super::nat_gateway_id()");
    reveal_strlit("super::vpc_peering_connection_id()");
    reveal_strlit("super::transit_gateway_id()");
    reveal_strlit("super::vpn_gateway_id()");
    reveal_strlit("super::vpc_endpoint_id()");
    reveal_strlit("super::aws_resource_id()");
    reveal_strlit("super::iam_role_arn()");
    reveal_strlit("super::iam_policy_arn()");
    reveal_strlit("super::kms_key_arn()");
    reveal_strlit("super::kms_key_id()");
    reveal_strlit("super::arn()");
    reveal_strlit("super::iam_policy_document()");
    reveal_strlit("super::ipam_pool_id()");
    reveal_strlit("super::availability_zone()");
    reveal_strlit("types::ipv6_cidr()");
    reveal_strlit("types::ipv4_cidr()");
    reveal_strlit("types::ipv6_address()");
    reveal_strlit("types::ipv4_address()");
    assert("super::vpc_id()"@[0] == 's');
    assert("super::subnet_id()"@[0] == 's');
    assert("super::security_group_id()"@[0] == 's');
    assert("super::egress_only_internet_gateway_id()"@[0] == 's');
    assert("super::internet_gateway_id()"@[0] == 's');
    assert("super::route_table_id()"@[0] == 's');
    assert("super::nat_gateway_id()"@[0] == 's');
    assert("super::vpc_peering_connection_id()"@[0] == 's');
    assert("super::transit_gateway_id()"@[0] == 's');
    assert("super::vpn_gateway_id()"@[0] == 's');
    assert("super::vpc_endpoint_id()"@[0] == 's');
    assert("super::aws_resource_id()"@[0] == 's');
    assert("super::iam_role_arn()"@[0] == 's');
    assert("super::iam_policy_arn()"@[0] == 's');
    assert("super::kms_key_arn()"@[0] == 's');
    assert("super::kms_key_id()"@[0] == 's');
    assert("super::arn()"@[0] == 's');
    assert("super::iam_policy_document()"@[0] == 's');
    assert("super::ipam_pool_id()"@[0] == 's');
    assert("super::availability_zone()"@[0] == 's');
    assert("types::ipv6_cidr()"@[0] == 't');
    assert("types::ipv4_cidr()"@[0] == 't');
    assert("types::ipv6_address()"@[0] == 't');
    assert("types::ipv4_address()"@[0] == 't');
    assert forall|n: Seq<char>| #[trigger] keyed::lookup(tables::string_type_table(), n) matches Some(t) implies ({
        let t = keyed::lookup(tables::string_type_table(), n)->0;
        t.len() > 0 && t[0] == 's'
    }) by {
        if keyed::lookup(tables::string_type_table(), n) is Some {
            keyed::lemma_index_from(tables::string_type_table(), n, 0);
            lemma_table_codes(keyed::index_from(tables::string_type_table(), n, 0)->0);
        }
    }
}

proof fn lemma_table_codes(i: int)
    requires
        0 <= i < tables::string_type_table().len(),
    ensures
        tables::string_type_table()[i].1.len() > 0,
        tables::string_type_table()[i].1[0] == 's',
{
    reveal_strlit("super::security_group_id()");
    reveal_strlit("super::aws_resource_id()");
    reveal_strlit("super::iam_role_arn()");
    reveal_strlit("super::iam_policy_arn()");
    reveal_strlit("super::kms_key_arn()");
    reveal_strlit("super::kms_key_id()");
    assert("super::security_group_id()"@[0] == 's');
    assert("super::aws_resource_id()"@[0] == 's');
    assert("super::iam_role_arn()"@[0] == 's');
    assert("super::iam_policy_arn()"@[0] == 's');
    assert("super::kms_key_arn()"@[0] == 's');
    assert("super::kms_key_id()"@[0] == 's');
}

/// What the pages call a text begins with none of the letters of what they call
/// other things.
proof fn lemma_text_displays(name: Seq<char>)
    ensures
        names::string_display(name).len() > 0,
        names::string_display(name)[0] != 'B',
        names::string_display(name)[0] != 'M',
        names::string_display(name)[0] != '[',
        names::string_display(name)[0] != '`',
        names::string_display(name) != "Int"@,
        "IamPolicyDocument"@.len() == 17 && "IamPolicyDocument"@[0] == 'I',
        "String"@.len() == 6 && "String"@[0] == 'S',
{
    reveal_strlit("VpcId");
    reveal_strlit("SubnetId");
    reveal_strlit("SecurityGroupId");
    reveal_strlit("EgressOnlyInternetGatewayId");
    reveal_strlit("InternetGatewayId");
    reveal_strlit("RouteTableId");
    reveal_strlit("NatGatewayId");
    reveal_strlit("VpcPeeringConnectionId");
    reveal_strlit("TransitGatewayId");
    reveal_strlit("VpnGatewayId");
    reveal_strlit("VpcEndpointId");
    reveal_strlit("AwsResourceId");
    reveal_strlit("IamRoleArn");
    reveal_strlit("IamPolicyArn");
    reveal_strlit("KmsKeyArn");
    reveal_strlit("KmsKeyId");
    reveal_strlit("String");
    reveal_strlit("Ipv6Cidr");
    reveal_strlit("Ipv4Cidr");
    reveal_strlit("Ipv6Address");
    reveal_strlit("Ipv4Address");
    reveal_strlit("AvailabilityZone");
    reveal_strlit("Arn");
    reveal_strlit("IpamPoolId");
    reveal_strlit("IamPolicyDocument");
    reveal_strlit("Int");
    assert("VpcId"@[0] == 'V');
    assert("SubnetId"@[0] == 'S');
    assert("SecurityGroupId"@[0] == 'S');
    assert("EgressOnlyInternetGatewayId"@[0] == 'E');
    assert("InternetGatewayId"@[0] == 'I');
    assert("RouteTableId"@[0] == 'R');
    assert("NatGatewayId"@[0] == 'N');
    assert("VpcPeeringConnectionId"@[0] == 'V');
    assert("TransitGatewayId"@[0] == 'T');
    assert("VpnGatewayId"@[0] == 'V');
    assert("VpcEndpointId"@[0] == 'V');
    assert("AwsResourceId"@[0] == 'A');
    assert("IamRoleArn"@[0] == 'I');
    assert("IamPolicyArn"@[0] == 'I');
    assert("KmsKeyArn"@[0] == 'K');
    assert("KmsKeyId"@[0] == 'K');
    assert("String"@[0] == 'S');
    assert("Ipv6Cidr"@[0] == 'I');
    assert("Ipv4Cidr"@[0] == 'I');
    assert("Ipv6Address"@[0] == 'I');
    assert("Ipv4Address"@[0] == 'I');
    assert("AvailabilityZone"@[0] == 'A');
    assert("Arn"@[0] == 'A');
    assert("IpamPoolId"@[0] == 'I');
    assert("IamPolicyDocument"@[0] == 'I');
    assert("VpcId"@.len() != 3 || "VpcId"@[0] == 'A');
    assert("SubnetId"@.len() != 3 || "SubnetId"@[0] == 'A');
    assert("SecurityGroupId"@.len() != 3 || "SecurityGroupId"@[0] == 'A');
    assert("EgressOnlyInternetGatewayId"@.len() != 3 || "EgressOnlyInternetGatewayId"@[0] == 'A');
    assert("InternetGatewayId"@.len() != 3 || "InternetGatewayId"@[0] == 'A');
    assert("RouteTableId"@.len() != 3 || "RouteTableId"@[0] == 'A');
    assert("NatGatewayId"@.len() != 3 || "NatGatewayId"@[0] == 'A');
    assert("VpcPeeringConnectionId"@.len() != 3 || "VpcPeeringConnectionId"@[0] == 'A');
    assert("TransitGatewayId"@.len() != 3 || "TransitGatewayId"@[0] == 'A');
    assert("VpnGatewayId"@.len() != 3 || "VpnGatewayId"@[0] == 'A');
    assert("VpcEndpointId"@.len() != 3 || "VpcEndpointId"@[0] == 'A');
    assert("AwsResourceId"@.len() != 3 || "AwsResourceId"@[0] == 'A');
    assert("IamRoleArn"@.len() != 3 || "IamRoleArn"@[0] == 'A');
    assert("IamPolicyArn"@.len() != 3 || "IamPolicyArn"@[0] == 'A');
    assert("KmsKeyArn"@.len() != 3 || "KmsKeyArn"@[0] == 'A');
    assert("KmsKeyId"@.len() != 3 || "KmsKeyId"@[0] == 'A');
    assert("String"@.len() != 3 || "String"@[0] == 'A');
    assert("Ipv6Cidr"@.len() != 3 || "Ipv6Cidr"@[0] == 'A');
    assert("Ipv4Cidr"@.len() != 3 || "Ipv4Cidr"@[0] == 'A');
    assert("Ipv6Address"@.len() != 3 || "Ipv6Address"@[0] == 'A');
    assert("Ipv4Address"@.len() != 3 || "Ipv4Address"@[0] == 'A');
    assert("AvailabilityZone"@.len() != 3 || "AvailabilityZone"@[0] == 'A');
    assert("Arn"@.len() != 3 || "Arn"@[0] == 'A');
    assert("IpamPoolId"@.len() != 3 || "IpamPoolId"@[0] == 'A');
    assert("IamPolicyDocument"@.len() != 3 || "IamPolicyDocument"@[0] == 'A');
    assert("Int"@.len() == 3 && "Int"@[0] == 'I');
}

/// The page calls a property a truth value exactly when the code has one.
pub proof fn law_page_and_code_agree_on_truth_values(prop: CfnProperty, name: Seq<char>, schema: CfnSchema)
    requires
        type_laws::goes_by_kind(prop, name),
        types::has_type(prop, name, schema),
    ensures
        ({
            let page = page::type_display(name, prop, schema, Seq::empty());
            let code = types::type_code(prop, name, schema).0;
            &&& page == "Bool"@ <==> code == "AttributeType::Bool"@
            &&& page == "Bool"@ <==> model::kind_name(prop) == Some("boolean"@)
        }),
{
    type_laws::lemma_not_known(name);
    type_laws::lemma_kinds();
    lemma_named_codes();
    lemma_text_displays(name);
    let code = types::type_code(prop, name, schema).0;
    let page = page::type_display(name, prop, schema, Seq::empty());
    reveal_strlit("Bool");
    reveal_strlit("Map");
    reveal_strlit("String");
    reveal_strlit("Int");
    reveal_strlit("Int(");
    reveal_strlit("/* enum */");
    reveal_strlit("AttributeType::Bool");
    reveal_strlit("AttributeType::String");
    reveal_strlit("AttributeType::Int");
    assert("AttributeType::Bool"@[0] == 'A' && "AttributeType::Bool"@[15] == 'B' && "AttributeType::Bool"@.len() == 19);
    assert("AttributeType::String"@[15] == 'S');
    assert("AttributeType::Int"@[15] == 'I');
    assert("Bool"@[0] == 'B' && "Map"@[0] == 'M' && "Int"@[0] == 'I' && "Int("@[0] == 'I');
    if model::kind_name(prop) == Some("string"@) {
        assert(code == "/* enum */"@ || code[0] == 's' || code[0] == 't' || code == "AttributeType::String"@);
        assert("/* enum */"@[0] == '/');
    } else if model::is_numeric(prop) {
        reveal_strlit("AttributeType::Custom {\n                name: \"Int(");
        assert(page[0] == 'I');
        assert(code == "AttributeType::Int"@ || code[15] == 'C');
    } else if model::kind_name(prop) == Some("array"@) {
        type_laws::law_list_types(prop, name, schema);
        reveal_strlit("AttributeType::List(Box::new(");
        reveal_strlit("AttributeType::List(Box::new(AttributeType::String))");
        assert(code[15] == 'L');
        lemma_list_displays(prop, name, schema);
    } else if model::kind_name(prop) == Some("object"@) {
        type_laws::law_object_types(prop, name, schema);
        reveal_strlit("AttributeType::Struct {\n                    name: \"");
        reveal_strlit("AttributeType::Map(Box::new(AttributeType::String))");
        reveal_strlit("[Struct(");
        assert("AttributeType::Map(Box::new(AttributeType::String))"@[15] == 'M');
        if prop.properties is Some && prop.properties->0@.len() > 0 {
            assert(code[15] == 'S');
            assert(page[0] == '[');
        }
    }
}

proof fn lemma_list_displays(prop: CfnProperty, name: Seq<char>, schema: CfnSchema)
    requires
        type_laws::goes_by_kind(prop, name),
        model::kind_name(prop) == Some("array"@),
    ensures
        ({
            let page = page::type_display(name, prop, schema, Seq::empty());
            page.len() > 0 && (page[0] == '[' || page[0] == '`')
        }),
{
    type_laws::lemma_kinds();
    reveal_strlit("`List<");
    reveal_strlit("`List<Int>`");
    reveal_strlit("`List<Bool>`");
    reveal_strlit("`List<String>`");
    reveal_strlit("`List<Map>`");
    reveal_strlit("[List\\<");
    assert("`List<String>`"@[0] == '`' && "`List<Map>`"@[0] == '`' && "`List<Int>`"@[0] == '`' && "`List<Bool>`"@[0] == '`');
    if prop.items is Some && prop.items->0.ref_path is Some {
        let path = prop.items->0.ref_path->0@;
        if !text::holds(path, "/Tag"@) && model::is_struct(model::resolved(schema, path)) {
            let page = page::type_display(name, prop, schema, Seq::empty());
            assert(page[0] == '[');
        }
    }
}

/// The link to a struct of the page: its name, and the name in lower case behind a
/// hash.
pub open spec fn struct_anchor(name: Seq<char>) -> Seq<char> {
    ")](#"@ + text::lowercase(name) + ")"@
}

/// The page links a property that refers to a struct to it, by the name of its
/// definition, and the code has the struct that is generated from the definition.
pub proof fn law_page_and_code_agree_on_structs(
    prop: CfnProperty,
    name: Seq<char>,
    schema: CfnSchema,
    def_name: Seq<char>,
    def: CfnDefinition,
)
    requires
        types::has_type(prop, name, schema),
        name != "Tags"@,
        def.properties is Some,
        def.properties->0@.len() > 0,
    ensures
        ({
            let page = page::type_display(name, prop, schema, Seq::empty());
            let code = types::type_code(prop, name, schema).0;
            let made = types::struct_code(def_name, def.properties->0@, text::strings(def.required@), schema);
            &&& prop.ref_path is Some && !text::holds(prop.ref_path->0@, "/Tag"@) && type_laws::refers_to(
                schema,
                prop.ref_path->0@,
                def_name,
                def,
            ) ==> page == "[Struct("@ + def_name + struct_anchor(def_name) && code == made
            &&& (type_laws::goes_by_kind(prop, name) && model::kind_name(prop) == Some("array"@) && prop.items is Some
                && prop.items->0.ref_path is Some && !text::holds(prop.items->0.ref_path->0@, "/Tag"@)
                && type_laws::refers_to(schema, prop.items->0.ref_path->0@, def_name, def)) ==> page == "[List\\<"@
                + def_name + "\\>](#"@ + text::lowercase(def_name) + ")"@ && code == "AttributeType::List(Box::new("@ + made
                + "))"@
        }),
{
    type_laws::lemma_kinds();
    let page = page::type_display(name, prop, schema, Seq::empty());
    if prop.ref_path is Some && !text::holds(prop.ref_path->0@, "/Tag"@) && type_laws::refers_to(
        schema,
        prop.ref_path->0@,
        def_name,
        def,
    ) {
        type_laws::law_references_are_resolved(schema, prop.ref_path->0@, def_name, def);
        type_laws::law_reference_is_a_struct(prop, name, schema, def_name, def);
        assert(page =~= "[Struct("@ + def_name + struct_anchor(def_name));
    }
    if type_laws::goes_by_kind(prop, name) && model::kind_name(prop) == Some("array"@) && prop.items is Some
        && prop.items->0.ref_path is Some && !text::holds(prop.items->0.ref_path->0@, "/Tag"@) && type_laws::refers_to(
        schema,
        prop.items->0.ref_path->0@,
        def_name,
        def,
    ) {
        let items = prop.items->0;
        type_laws::law_references_are_resolved(schema, items.ref_path->0@, def_name, def);
        type_laws::law_list_types(prop, name, schema);
        type_laws::law_reference_is_a_struct(*items, name, schema, def_name, def);
    }
}

/// What the page calls an object: a link to its struct where it has properties of
/// its own, and else a policy or a map, as in the code.
pub proof fn law_page_and_code_agree_on_objects(prop: CfnProperty, name: Seq<char>, schema: CfnSchema)
    requires
        type_laws::goes_by_kind(prop, name),
        types::has_type(prop, name, schema),
        model::kind_name(prop) == Some("object"@),
    ensures
        ({
            let page = page::type_display(name, prop, schema, Seq::empty());
            let code = types::type_code(prop, name, schema).0;
            if prop.properties is Some && prop.properties->0@.len() > 0 {
                page == "[Struct("@ + name + struct_anchor(name) && code == types::struct_code(
                    name,
                    prop.properties->0@,
                    text::strings(prop.required@),
                    schema,
                )
            } else if text::finishes_with(name, "PolicyDocument"@) {
                page == "IamPolicyDocument"@ && code == "super::iam_policy_document()"@
            } else {
                page == "Map"@ && code == "AttributeType::Map(Box::new(AttributeType::String))"@
            }
        }),
{
    type_laws::lemma_kinds();
    type_laws::law_object_types(prop, name, schema);
    let page = page::type_display(name, prop, schema, Seq::empty());
    if prop.properties is Some && prop.properties->0@.len() > 0 {
        assert(page =~= "[Struct("@ + name + struct_anchor(name));
    }
}

/// What the page calls a list of truth values, of numbers, of texts and of tags, and
/// one that does not say what it holds.
pub proof fn law_page_names_what_lists_hold(prop: CfnProperty, name: Seq<char>, schema: CfnSchema)
    requires
        type_laws::goes_by_kind(prop, name),
        model::kind_name(prop) == Some("array"@),
    ensures
        ({
            let page = page::type_display(name, prop, schema, Seq::empty());
            match prop.items {
                None => page == "`List<String>`"@,
                Some(items) => match items.ref_path {
                    Some(path) => text::holds(path@, "/Tag"@) ==> page == "`List<Map>`"@,
                    None => {
                        &&& model::kind_name(*items) == Some("boolean"@) ==> page == "`List<Bool>`"@
                        &&& model::kind_name(*items) == Some("integer"@) || model::kind_name(*items) == Some("number"@)
                            ==> page == "`List<Int>`"@
                        &&& model::kind_name(*items) == Some("string"@) ==> page == "`List<"@ + names::string_display(name)
                            + ">`"@
                        &&& model::kind_name(*items) is None ==> page == "`List<String>`"@
                    },
                },
            }
        }),
{
    type_laws::lemma_kinds();
}

/// What the page calls an enum: a link to its values, by the name of the property
/// and of the enum.
pub proof fn law_page_links_enums(
    name: Seq<char>,
    prop: CfnProperty,
    schema: CfnSchema,
    enums: Seq<(Seq<char>, EnumView)>,
    e: EnumView,
)
    requires
        keyed::lookup(enums, name) == Some(e),
    ensures
        page::type_display(name, prop, schema, enums) == "[Enum ("@ + e.typename + ")](#"@ + casing::snake_case(name) + "-"@
            + text::lowercase(e.typename) + ")"@,
{
}

/// Tags are a map on the page, whether by their name or by what they refer to.
pub proof fn law_page_shows_tags_as_a_map(name: Seq<char>, prop: CfnProperty, schema: CfnSchema)
    ensures
        name == "Tags"@ ==> page::type_display(name, prop, schema, Seq::empty()) == "Map"@,
        prop.ref_path is Some && text::holds(prop.ref_path->0@, "/Tag"@) ==> page::type_display(
            name,
            prop,
            schema,
            Seq::empty(),
        ) == "Map"@,
{
}

/// What the pages call a known type of a text is the name of its type function.
pub proof fn law_known_texts_are_named_alike(i: int)
    requires
        0 <= i < tables::string_type_table().len(),
    ensures
        ({
            let t = tables::string_type_table()[i].1;
            t == names::super_call(names::display_of_type(t))
        }),
{
    lemma_call_of_security_group_id();
    lemma_call_of_aws_resource_id();
    lemma_call_of_iam_role_arn();
    lemma_call_of_iam_policy_arn();
    lemma_call_of_kms_key_arn();
    lemma_call_of_kms_key_id();
    reveal_strlit("super::security_group_id()");
    assert("super::security_group_id()"@.len() == 26);
    reveal_strlit("super::aws_resource_id()");
    assert("super::aws_resource_id()"@.len() == 24);
    reveal_strlit("super::iam_role_arn()");
    assert("super::iam_role_arn()"@.len() == 21);
    reveal_strlit("super::iam_policy_arn()");
    assert("super::iam_policy_arn()"@.len() == 23);
    reveal_strlit("super::kms_key_arn()");
    assert("super::kms_key_arn()"@.len() == 20);
    reveal_strlit("super::kms_key_id()");
    assert("super::kms_key_id()"@.len() == 19);
}

proof fn lemma_call_of_security_group_id()
    ensures
        names::super_call("SecurityGroupId"@) == "super::security_group_id()"@,
{
    reveal_strlit("SecurityGroupId");
    reveal_strlit("super::security_group_id()");
    reveal_strlit("super::");
    reveal_strlit("()");
    reveal_with_fuel(casing::snaked, 16);
    assert(names::super_call("SecurityGroupId"@) =~= "super::security_group_id()"@);
}

proof fn lemma_call_of_aws_resource_id()
    ensures
        names::super_call("AwsResourceId"@) == "super::aws_resource_id()"@,
{
    reveal_strlit("AwsResourceId");
    reveal_strlit("super::aws_resource_id()");
    reveal_strlit("super::");
    reveal_strlit("()");
    reveal_with_fuel(casing::snaked, 14);
    assert(names::super_call("AwsResourceId"@) =~= "super::aws_resource_id()"@);
}

proof fn lemma_call_of_iam_role_arn()
    ensures
        names::super_call("IamRoleArn"@) == "super::iam_role_arn()"@,
{
    reveal_strlit("IamRoleArn");
    reveal_strlit("super::iam_role_arn()");
    reveal_strlit("super::");
    reveal_strlit("()");
    reveal_with_fuel(casing::snaked, 11);
    assert(names::super_call("IamRoleArn"@) =~= "super::iam_role_arn()"@);
}

proof fn lemma_call_of_iam_policy_arn()
    ensures
        names::super_call("IamPolicyArn"@) == "super::iam_policy_arn()"@,
{
    reveal_strlit("IamPolicyArn");
    reveal_strlit("super::iam_policy_arn()");
    reveal_strlit("super::");
    reveal_strlit("()");
    reveal_with_fuel(casing::snaked, 13);
    assert(names::super_call("IamPolicyArn"@) =~= "super::iam_policy_arn()"@);
}

proof fn lemma_call_of_kms_key_arn()
    ensures
        names::super_call("KmsKeyArn"@) == "super::kms_key_arn()"@,
{
    reveal_strlit("KmsKeyArn");
    reveal_strlit("super::kms_key_arn()");
    reveal_strlit("super::");
    reveal_strlit("()");
    reveal_with_fuel(casing::snaked, 10);
    assert(names::super_call("KmsKeyArn"@) =~= "super::kms_key_arn()"@);
}

proof fn lemma_call_of_kms_key_id()
    ensures
        names::super_call("KmsKeyId"@) == "super::kms_key_id()"@,
{
    reveal_strlit("KmsKeyId");
    reveal_strlit("super::kms_key_id()");
    reveal_strlit("super::");
    reveal_strlit("()");
    reveal_with_fuel(casing::snaked, 9);
    assert(names::super_call("KmsKeyId"@) =~= "super::kms_key_id()"@);
}

/// A name that no table knows and that is not in the plural.
pub open spec fn is_plain_name(name: Seq<char>) -> bool {
    &&& keyed::lookup(tables::string_type_table(), name) is None
    &&& !text::finishes_with(name, "Ids"@)
    &&& !text::finishes_with(name, "ids"@)
    &&& !text::finishes_with(name, "Arns"@)
    &&& !text::finishes_with(name, "arns"@)
    &&& !text::finishes_with(name, "PolicyDocument"@)
}

/// The page and the code agree on texts that their names tell apart: address
/// ranges, addresses, ARNs, pools, identifiers of resources and zones. Each name
/// reads like one of them only.
pub proof fn law_page_and_code_agree_on_texts(prop: CfnProperty, name: Seq<char>, schema: CfnSchema)
    requires
        type_laws::goes_by_kind(prop, name),
        model::kind_name(prop) == Some("string"@),
        is_plain_name(name),
        !(schema.typename@ == "AWS::IAM::Role"@ && name == "Arn"@),
    ensures
        ({
            let lower = text::lowercase(name);
            let page = page::type_display(name, prop, schema, Seq::empty());
            let code = types::type_code(prop, name, schema).0;
            let cidr = text::holds(lower, "cidr"@);
            let address = names::names_ip_address(lower);
            let arn = names::names_arn(lower);
            let pool = names::names_ipam_pool_id(lower);
            let id = names::names_resource_id(lower);
            let v6 = text::holds(lower, "ipv6"@);
            &&& cidr && !arn && !id ==> page == (if v6 {
                "Ipv6Cidr"@
            } else {
                "Ipv4Cidr"@
            }) && code == if v6 {
                "types::ipv6_cidr()"@
            } else {
                "types::ipv4_cidr()"@
            }
            &&& address && !cidr && !arn && !id ==> page == (if v6 {
                "Ipv6Address"@
            } else {
                "Ipv4Address"@
            }) && code == if v6 {
                "types::ipv6_address()"@
            } else {
                "types::ipv4_address()"@
            }
            &&& arn && !cidr && !address && lower != "availabilityzone"@ && lower != "availabilityzones"@ ==> page == "Arn"@
                && code == "super::arn()"@
            &&& pool && !cidr && !address && !arn && !id && lower != "availabilityzone"@ && lower != "availabilityzones"@
                ==> page == "IpamPoolId"@ && code == "super::ipam_pool_id()"@
            &&& id && !cidr && !address && !arn && !pool && lower != "availabilityzone"@ && lower != "availabilityzones"@
                ==> page == names::display_of_kind(names::kind_of(lower)) && code == names::super_call(page)
            &&& lower == "availabilityzone"@ && !cidr && !address && !arn && !pool && !id && !text::finishes_with(lower, "id"@)
                ==> page == "AvailabilityZone"@ && code == "super::availability_zone()"@
            &&& !cidr && !address && !arn && !pool && !id && lower != "availabilityzone"@ && lower != "availabilityzones"@
                ==> page == "String"@ && (code == "AttributeType::String"@ || types::type_code(prop, name, schema).1 is Some)
        }),
{
    type_laws::lemma_not_known(name);
    type_laws::lemma_kinds();
    names::law_type_is_named_like_display(text::lowercase(name));
}

/// Texts behind each other hold each of them.
pub proof fn lemma_cat_holds(acc: Seq<char>, items: Seq<Seq<char>>, i: int, part: Seq<char>)
    ensures
        text::holds(acc, part) ==> text::holds(text::cat(acc, items), part),
        0 <= i < items.len() && text::holds(items[i], part) ==> text::holds(text::cat(acc, items), part),
    decreases items.len(),
{
    if items.len() > 0 {
        let before = items.drop_last();
        lemma_cat_holds(acc, before, i, part);
        let front = text::cat(acc, before);
        if 0 <= i < before.len() {
            assert(before[i] == items[i]);
        }
        lemma_holds_within(front, items.last(), part);
    }
}

/// What one of two texts holds, both hold behind each other.
pub proof fn lemma_holds_within(a: Seq<char>, b: Seq<char>, part: Seq<char>)
    ensures
        text::holds(a, part) ==> text::holds(a + b, part),
        text::holds(b, part) ==> text::holds(a + b, part),
{
    if text::holds(a, part) {
        let i = choose|i: int| text::stands_at(a, part, i);
        assert((a + b).subrange(i, i + part.len()) =~= a.subrange(i, i + part.len()));
        assert(text::stands_at(a + b, part, i));
    }
    if text::holds(b, part) {
        let i = choose|i: int| text::stands_at(b, part, i);
        assert((a + b).subrange(a.len() + i, a.len() + i + part.len()) =~= b.subrange(i, i + part.len()));
        assert(text::stands_at(a + b, part, a.len() + i));
    }
}

/// A text holds itself.
pub proof fn lemma_holds_itself(a: Seq<char>)
    ensures
        text::holds(a, a),
{
    assert(a.subrange(0, a.len() as int) =~= a);
    assert(text::stands_at(a, a, 0));
}

/// A list of paths names a property exactly when it holds `/properties/` and the
/// name behind it.
pub proof fn law_paths_name_properties(paths: Seq<Seq<char>>, name: Seq<char>)
    requires
        !text::begins_with(name, "/properties/"@),
        forall|k: int|
            0 <= k < paths.len() ==> text::begins_with(#[trigger] paths[k], "/properties/"@) && !text::begins_with(
                paths[k].skip("/properties/"@.len() as int),
                "/properties/"@,
            ),
    ensures
        page::lists_path(paths, name) <==> exists|k: int|
            0 <= k < paths.len() && #[trigger] paths[k] == "/properties/"@ + name,
{
    reveal_strlit("/properties/");
    let front = "/properties/"@;
    let n = front.len() as int;
    let bare = paths.map_values(|p: Seq<char>| text::without_leading(p, front));
    reveal_with_fuel(text::without_leading, 3);
    assert forall|k: int| 0 <= k < paths.len() implies #[trigger] bare[k] == paths[k].skip(n) by {
        assert(text::begins_with(paths[k], front));
    }
    if page::lists_path(paths, name) {
        let k = choose|k: int| 0 <= k < bare.len() && bare[k] == name;
        assert(paths[k] =~= front + name) by {
            assert(paths[k].subrange(0, n) == front);
            assert(paths[k] =~= paths[k].subrange(0, n) + paths[k].skip(n));
        }
    }
    if exists|k: int| 0 <= k < paths.len() && #[trigger] paths[k] == front + name {
        let k = choose|k: int| 0 <= k < paths.len() && #[trigger] paths[k] == front + name;
        assert((front + name).skip(n) =~= name);
        assert(bare[k] == name);
    }
}

/// A page has a section for every property: among the arguments where it can be
/// written, and among the attributes where it is only read. The section names the
/// property in snake case and its type; an argument says whether it is required,
/// and what it is for.
pub proof fn law_page_shows_every_property(schema: CfnSchema, typename: Seq<char>, i: int)
    requires
        0 <= i < schema.properties@.len(),
    ensures
        ({
            let page = page::page_text(schema, typename);
            let name = schema.properties@[i].0@;
            let prop = schema.properties@[i].1;
            let shown = "### `"@ + casing::snake_case(name) + "`\n\n- **Type:** "@ + page::type_display(
                name,
                prop,
                schema,
                page::schema_enums(schema.properties@, schema),
            );
            if page::lists_path(text::strings(schema.read_only_properties@), name) {
                text::holds(page, "## Attribute Reference\n\n"@) && text::holds(page, shown + "\n\n"@)
            } else {
                let needed = if text::strings(schema.required@).contains(name) {
                    "\n- **Required:** Yes\n\n"@
                } else {
                    "\n- **Required:** No\n\n"@
                };
                text::holds(page, "## Argument Reference\n\n"@) && text::holds(
                    page,
                    shown + needed + if prop.description is Some {
                        page::one_line(prop.description->0@) + "\n\n"@
                    } else {
                        Seq::empty()
                    },
                )
            }
        }),
{
    let props = schema.properties@;
    let name = props[i].0@;
    let prop = props[i].1;
    let enums = page::schema_enums(props, schema);
    let read_only = page::lists_path(text::strings(schema.read_only_properties@), name);
    let shown = "### `"@ + casing::snake_case(name) + "`\n\n- **Type:** "@ + page::type_display(name, prop, schema, enums);
    lemma_sections_of(props, schema, enums, i);
    reveal_strlit("`\n\n- **Type:** ");
    reveal_strlit("`\n\n");
    reveal_strlit("- **Type:** ");
    assert("`\n\n- **Type:** "@ =~= "`\n\n"@ + "- **Type:** "@);
    if read_only {
        let section = page::attribute_section(name, prop, schema, enums);
        assert(section =~= shown + "\n\n"@);
        let attributes = page::attribute_sections(props, schema, enums);
        let k = choose|k: int| 0 <= k < attributes.len() && attributes[k] == section;
        lemma_holds_itself(section);
        lemma_page_parts(schema, typename, section, k);
    } else {
        let required = text::strings(schema.required@).contains(name);
        let section = page::argument_section(name, prop, schema, enums, required);
        let needed = if required {
            "\n- **Required:** Yes\n\n"@
        } else {
            "\n- **Required:** No\n\n"@
        };
        reveal_strlit("\n- **Required:** Yes\n\n");
        reveal_strlit("\n- **Required:** No\n\n");
        reveal_strlit("- **Required:** Yes\n");
        reveal_strlit("- **Required:** No\n");
        reveal_strlit("\n");
        assert(needed =~= "\n"@ + (if required {
            "- **Required:** Yes\n"@
        } else {
            "- **Required:** No\n"@
        }) + "\n"@);
        assert(section =~= shown + needed + if prop.description is Some {
            page::one_line(prop.description->0@) + "\n\n"@
        } else {
            Seq::empty()
        });
        let arguments = page::argument_sections(props, schema, enums);
        let k = choose|k: int| 0 <= k < arguments.len() && arguments[k] == section;
        lemma_holds_itself(section);
        lemma_page_parts(schema, typename, section, k);
    }
}

proof fn lemma_sections_of(props: Seq<(String, CfnProperty)>, schema: CfnSchema, enums: Seq<(Seq<char>, EnumView)>, i: int)
    requires
        0 <= i < props.len(),
    ensures
        ({
            let name = props[i].0@;
            let prop = props[i].1;
            if page::lists_path(text::strings(schema.read_only_properties@), name) {
                page::attribute_sections(props, schema, enums).contains(
                    page::attribute_section(name, prop, schema, enums),
                )
            } else {
                page::argument_sections(props, schema, enums).contains(
                    page::argument_section(
                        name,
                        prop,
                        schema,
                        enums,
                        text::strings(schema.required@).contains(name),
                    ),
                )
            }
        }),
    decreases props.len(),
{
    let before = props.drop_last();
    let x = page::attribute_sections(before, schema, enums);
    let y = page::argument_sections(before, schema, enums);
    let all_x = page::attribute_sections(props, schema, enums);
    let all_y = page::argument_sections(props, schema, enums);
    assert forall|k: int| 0 <= k < x.len() implies #[trigger] all_x[k] == x[k] by {}
    assert forall|k: int| 0 <= k < y.len() implies #[trigger] all_y[k] == y[k] by {}
    if i < before.len() {
        assert(before[i] == props[i]);
        lemma_sections_of(before, schema, enums, i);
        let name = props[i].0@;
        if page::lists_path(text::strings(schema.read_only_properties@), name) {
            let section = page::attribute_section(name, props[i].1, schema, enums);
            let k = choose|k: int| 0 <= k < x.len() && x[k] == section;
            assert(all_x[k] == section);
        } else {
            let section = page::argument_section(
                name,
                props[i].1,
                schema,
                enums,
                text::strings(schema.required@).contains(name),
            );
            let k = choose|k: int| 0 <= k < y.len() && y[k] == section;
            assert(all_y[k] == section);
        }
    } else {
        if all_x.len() > x.len() {
            assert(all_x[x.len() as int] == all_x.last());
        }
        if all_y.len() > y.len() {
            assert(all_y[y.len() as int] == all_y.last());
        }
    }
}

/// Each property has one section, in the order of the properties: among the
/// attributes where it is only read, and among the arguments where it is not.
pub proof fn law_each_property_has_one_section(
    props: Seq<(String, CfnProperty)>,
    p: (String, CfnProperty),
    schema: CfnSchema,
    enums: Seq<(Seq<char>, EnumView)>,
)
    ensures
        page::argument_sections(Seq::empty(), schema, enums).len() == 0,
        page::attribute_sections(Seq::empty(), schema, enums).len() == 0,
        ({
            let arguments = page::argument_sections(props, schema, enums);
            let attributes = page::attribute_sections(props, schema, enums);
            let more_arguments = page::argument_sections(props.push(p), schema, enums);
            let more_attributes = page::attribute_sections(props.push(p), schema, enums);
            if page::lists_path(text::strings(schema.read_only_properties@), p.0@) {
                more_arguments == arguments && more_attributes.drop_last() == attributes && more_attributes.len()
                    == attributes.len() + 1
            } else {
                more_attributes == attributes && more_arguments.drop_last() == arguments && more_arguments.len()
                    == arguments.len() + 1
            }
        }),
{
    assert(props.push(p).drop_last() =~= props);
    let arguments = page::argument_sections(props, schema, enums);
    let attributes = page::attribute_sections(props, schema, enums);
    let more_arguments = page::argument_sections(props.push(p), schema, enums);
    let more_attributes = page::attribute_sections(props.push(p), schema, enums);
    if page::lists_path(text::strings(schema.read_only_properties@), p.0@) {
        assert(more_attributes.drop_last() =~= attributes);
    } else {
        assert(more_arguments.drop_last() =~= arguments);
    }
}

/// A page of a type that has neither enums nor structs nor what is only read ends
/// with its arguments, one after the other.
pub proof fn law_page_has_no_empty_parts(schema: CfnSchema, typename: Seq<char>)
    requires
        schema.description is None,
        page::schema_enums(schema.properties@, schema).len() == 0,
        page::schema_structs(schema.properties@, schema).len() == 0,
        forall|i: int|
            0 <= i < schema.properties@.len() ==> !page::lists_path(
                text::strings(schema.read_only_properties@),
                (#[trigger] schema.properties@[i]).0@,
            ),
    ensures
        ({
            let parts = text::split(typename, "::"@);
            let full = text::lowercase(parts[1]) + "_"@ + casing::snake_case(parts[2]);
            page::page_text(schema, typename) == text::cat(
                "# awscc."@ + full + "\n\nCloudFormation Type: `"@ + typename + "`\n\n"@ + "## Argument Reference\n\n"@,
                page::argument_sections(schema.properties@, schema, Seq::empty()),
            )
        }),
{
    let enums = page::schema_enums(schema.properties@, schema);
    assert(enums =~= Seq::empty());
    lemma_nothing_only_read(schema.properties@, schema, enums);
    let parts = text::split(typename, "::"@);
    let full = text::lowercase(parts[1]) + "_"@ + casing::snake_case(parts[2]);
    reveal_strlit("\n\n");
    reveal_strlit("CloudFormation Type: `");
    reveal_strlit("\n\nCloudFormation Type: `");
    assert("\n\nCloudFormation Type: `"@ =~= "\n\n"@ + "CloudFormation Type: `"@);
    assert("# awscc."@ + full + "\n\n"@ + "CloudFormation Type: `"@ + typename + "`\n\n"@ =~= "# awscc."@ + full
        + "\n\nCloudFormation Type: `"@ + typename + "`\n\n"@);
}

proof fn lemma_nothing_only_read(props: Seq<(String, CfnProperty)>, schema: CfnSchema, enums: Seq<(Seq<char>, EnumView)>)
    requires
        forall|i: int|
            0 <= i < props.len() ==> !page::lists_path(
                text::strings(schema.read_only_properties@),
                (#[trigger] props[i]).0@,
            ),
    ensures
        page::attribute_sections(props, schema, enums).len() == 0,
    decreases props.len(),
{
    if props.len() > 0 {
        let before = props.drop_last();
        assert forall|i: int| 0 <= i < before.len() implies !page::lists_path(
            text::strings(schema.read_only_properties@),
            (#[trigger] before[i]).0@,
        ) by {
            assert(before[i] == props[i]);
        }
        lemma_nothing_only_read(before, schema, enums);
        assert(props[props.len() - 1] == props.last());
    }
}

/// A page holds what its sections hold, and the heads over them.
proof fn lemma_page_parts(schema: CfnSchema, typename: Seq<char>, part: Seq<char>, k: int)
    ensures
        ({
            let page = page::page_text(schema, typename);
            let props = schema.properties@;
            let enums = page::schema_enums(props, schema);
            let defs = page::schema_structs(props, schema);
            let full = page::full_name(text::split(typename, "::"@));
            let arguments = page::argument_sections(props, schema, enums);
            let values = page::enum_sections(enums, "awscc."@ + full);
            let structs = page::struct_sections(defs);
            let attributes = page::attribute_sections(props, schema, enums);
            &&& text::holds(page, "# awscc."@ + full + "\n\nCloudFormation Type: `"@ + typename + "`\n\n"@)
            &&& text::holds(page, "## Argument Reference\n\n"@)
            &&& schema.description matches Some(d) ==> text::holds(page, d@)
            &&& 0 <= k < arguments.len() && text::holds(arguments[k], part) ==> text::holds(page, part)
            &&& 0 <= k < values.len() && text::holds(values[k], part) ==> text::holds(page, part) && text::holds(
                page,
                "## Enum Values\n\n"@,
            )
            &&& 0 <= k < structs.len() && text::holds(structs[k], part) ==> text::holds(page, part) && text::holds(
                page,
                "## Struct Definitions\n\n"@,
            )
            &&& 0 <= k < attributes.len() && text::holds(attributes[k], part) ==> text::holds(page, part) && text::holds(
                page,
                "## Attribute Reference\n\n"@,
            )
        }),
{
    let props = schema.properties@;
    let enums = page::schema_enums(props, schema);
    let defs = page::schema_structs(props, schema);
    let full = page::full_name(text::split(typename, "::"@));
    let title = "# awscc."@ + full + "\n\n"@ + "CloudFormation Type: `"@ + typename + "`\n\n"@;
    let whole = "# awscc."@ + full + "\n\nCloudFormation Type: `"@ + typename + "`\n\n"@;
    reveal_strlit("\n\n");
    reveal_strlit("CloudFormation Type: `");
    reveal_strlit("\n\nCloudFormation Type: `");
    assert("\n\nCloudFormation Type: `"@ =~= "\n\n"@ + "CloudFormation Type: `"@);
    assert(title =~= whole);
    let described = match schema.description {
        Some(d) => title + d@ + "\n\n"@,
        None => title,
    };
    let h1 = "## Argument Reference\n\n"@;
    let h2 = "## Enum Values\n\n"@;
    let h3 = "## Struct Definitions\n\n"@;
    let h4 = "## Attribute Reference\n\n"@;
    let s1 = page::argument_sections(props, schema, enums);
    let s2 = page::enum_sections(enums, "awscc."@ + full);
    let s3 = page::struct_sections(defs);
    let s4 = page::attribute_sections(props, schema, enums);
    let p1 = text::cat(described + h1, s1);
    let p2 = if enums.len() > 0 {
        text::cat(p1 + h2, s2)
    } else {
        p1
    };
    let p3 = if defs.len() > 0 {
        text::cat(p2 + h3, s3)
    } else {
        p2
    };
    let p4 = if s4.len() > 0 {
        text::cat(p3 + h4, s4)
    } else {
        p3
    };
    assert(p4 == page::page_text(schema, typename));
    lemma_holds_itself(whole);
    lemma_holds_itself(h1);
    lemma_holds_itself(h2);
    lemma_holds_itself(h3);
    lemma_holds_itself(h4);
    if let Some(d) = schema.description {
        lemma_holds_itself(d@);
        lemma_holds_within(title, d@, d@);
        lemma_holds_within(title + d@, "\n\n"@, d@);
        lemma_holds_within(title, d@, whole);
        lemma_holds_within(title + d@, "\n\n"@, whole);
        lemma_carry(described, h1, s1, k, d@);
        lemma_carry(p1, h2, s2, k, d@);
        lemma_carry(p2, h3, s3, k, d@);
        lemma_carry(p3, h4, s4, k, d@);
    }
    lemma_carry(described, h1, s1, k, whole);
    lemma_carry(p1, h2, s2, k, whole);
    lemma_carry(p2, h3, s3, k, whole);
    lemma_carry(p3, h4, s4, k, whole);
    lemma_carry(described, h1, s1, k, h1);
    lemma_carry(p1, h2, s2, k, h1);
    lemma_carry(p2, h3, s3, k, h1);
    lemma_carry(p3, h4, s4, k, h1);
    lemma_carry(p1, h2, s2, k, h2);
    lemma_carry(p2, h3, s3, k, h2);
    lemma_carry(p3, h4, s4, k, h2);
    lemma_carry(p2, h3, s3, k, h3);
    lemma_carry(p3, h4, s4, k, h3);
    lemma_carry(p3, h4, s4, k, h4);
    lemma_carry(described, h1, s1, k, part);
    lemma_carry(p1, h2, s2, k, part);
    lemma_carry(p2, h3, s3, k, part);
    lemma_carry(p3, h4, s4, k, part);
}

/// A text with a head and sections behind it holds what it held, the head, and what
/// each section holds.
proof fn lemma_carry(front: Seq<char>, head: Seq<char>, sections: Seq<Seq<char>>, k: int, part: Seq<char>)
    ensures
        text::holds(front, part) ==> text::holds(text::cat(front + head, sections), part),
        text::holds(head, part) ==> text::holds(text::cat(front + head, sections), part),
        0 <= k < sections.len() && text::holds(sections[k], part) ==> text::holds(
            text::cat(front + head, sections),
            part,
        ),
{
    lemma_holds_within(front, head, part);
    lemma_cat_holds(front + head, sections, k, part);
}

/// A page names the resource type, in full and as CloudFormation does, and holds
/// its description.
pub proof fn law_page_names_its_type(schema: CfnSchema, typename: Seq<char>)
    ensures
        ({
            let page = page::page_text(schema, typename);
            let parts = text::split(typename, "::"@);
            let full = text::lowercase(parts[1]) + "_"@ + casing::snake_case(parts[2]);
            &&& text::holds(page, "# awscc."@ + full + "\n\nCloudFormation Type: `"@ + typename + "`\n\n"@)
            &&& schema.description matches Some(d) ==> text::holds(page, d@)
        }),
{
    lemma_page_parts(schema, typename, Seq::empty(), 0);
}

/// Every property that is an enum is listed once on a page, in order, and no other.
pub proof fn law_enums_of_a_page(props: Seq<(String, CfnProperty)>, schema: CfnSchema, last: (String, CfnProperty))
    ensures
        page::schema_enums(Seq::empty(), schema) == Seq::<(Seq<char>, EnumView)>::empty(),
        page::schema_enums(props.push(last), schema) == match types::type_code(last.1, last.0@, schema).1 {
            Some(e) => page::schema_enums(props, schema).push((last.0@, e)),
            None => page::schema_enums(props, schema),
        },
{
    assert(props.push(last).drop_last() =~= props);
}

/// A page lists each enum with its name and with every value, once as it is and once
/// in full form.
pub proof fn law_page_shows_every_enum_value(schema: CfnSchema, typename: Seq<char>, k: int, v: int)
    requires
        0 <= k < page::schema_enums(schema.properties@, schema).len(),
        0 <= v < page::schema_enums(schema.properties@, schema)[k].1.values.len(),
    ensures
        ({
            let page = page::page_text(schema, typename);
            let (name, e) = page::schema_enums(schema.properties@, schema)[k];
            let parts = text::split(typename, "::"@);
            let full = text::lowercase(parts[1]) + "_"@ + casing::snake_case(parts[2]);
            &&& text::holds(page, "## Enum Values\n\n"@)
            &&& text::holds(page, "### "@ + casing::snake_case(name) + " ("@ + e.typename + ")\n\n"@)
            &&& text::holds(
                page,
                "| `"@ + e.values[v] + "` | `awscc."@ + full + "."@ + e.typename + "."@ + e.values[v] + "` |\n"@,
            )
            &&& text::holds(
                page,
                "Shorthand formats: `"@ + e.values[0] + "` or `"@ + e.typename + "."@ + e.values[0] + "`\n\n"@,
            )
        }),
{
    let enums = page::schema_enums(schema.properties@, schema);
    let (name, e) = enums[k];
    let parts = text::split(typename, "::"@);
    let full = text::lowercase(parts[1]) + "_"@ + casing::snake_case(parts[2]);
    let namespace = "awscc."@ + full;
    let section = page::enum_section(name, e, namespace);
    assert(page::enum_sections(enums, namespace)[k] == section);
    let head = "### "@ + casing::snake_case(name) + " ("@ + e.typename + ")\n\n"@;
    let columns = "| Value | DSL Identifier |\n"@ + "|-------|----------------|\n"@;
    let rows = e.values.map_values(|v: Seq<char>| page::value_row(v, namespace, e.typename));
    let acc = head + "| Value | DSL Identifier |\n"@ + "|-------|----------------|\n"@;
    assert(acc =~= head + columns);
    let row = "| `"@ + e.values[v] + "` | `awscc."@ + full + "."@ + e.typename + "."@ + e.values[v] + "` |\n"@;
    reveal_strlit("` | `awscc.");
    reveal_strlit("` | `");
    reveal_strlit("awscc.");
    assert("` | `awscc."@ =~= "` | `"@ + "awscc."@);
    assert(rows[v] =~= row);
    let listed = text::cat(acc, rows);
    let short = "Shorthand formats: `"@ + e.values[0] + "` or `"@ + e.typename + "."@ + e.values[0] + "`\n\n"@;
    assert(section =~= listed + "\n"@ + short);
    lemma_holds_itself(head);
    lemma_holds_within(head, columns, head);
    lemma_cat_holds(acc, rows, v, head);
    lemma_holds_itself(row);
    lemma_cat_holds(acc, rows, v, row);
    lemma_holds_within(listed, "\n"@, head);
    lemma_holds_within(listed, "\n"@, row);
    lemma_holds_within(listed + "\n"@, short, head);
    lemma_holds_within(listed + "\n"@, short, row);
    lemma_holds_itself(short);
    lemma_holds_within(listed + "\n"@, short, short);
    lemma_page_parts(schema, typename, head, k);
    lemma_page_parts(schema, typename, row, k);
    lemma_page_parts(schema, typename, short, k);
}

/// The structs of a page are found under their names, whatever else is found.
proof fn lemma_structs_grow(props: Seq<(String, CfnProperty)>, schema: CfnSchema, name: Seq<char>)
    requires
        props.len() > 0,
    ensures
        keyed::ascending(page::schema_structs(props, schema)),
        keyed::keys(page::schema_structs(props.drop_last(), schema)).contains(name) ==> keyed::keys(
            page::schema_structs(props, schema),
        ).contains(name),
{
    let m = page::schema_structs(props.drop_last(), schema);
    let found = page::property_structs(props.last().1, props.last().0@, schema);
    page::lemma_structs_ascend(props.drop_last(), schema);
    page::lemma_structs_ascend(props, schema);
    lemma_with_struct(m, found.0, name);
    lemma_with_struct(page::with_struct(m, found.0), found.1, name);
    lemma_with_struct(page::with_struct(page::with_struct(m, found.0), found.1), found.2, name);
}

proof fn lemma_with_struct(m: Seq<(Seq<char>, StructDefView)>, d: Option<StructDefView>, name: Seq<char>)
    requires
        keyed::ascending(m),
    ensures
        keyed::ascending(page::with_struct(m, d)),
        keyed::keys(m).contains(name) ==> keyed::keys(page::with_struct(m, d)).contains(name),
        d matches Some(x) ==> keyed::keys(page::with_struct(m, d)).contains(x.def_name),
{
    if let Some(x) = d {
        keyed::law_put_absent(m, x.def_name, x);
        let out = page::with_struct(m, d);
        let at = keyed::slot_from(keyed::keys(m), x.def_name, 0);
        keyed::lemma_slot(keyed::keys(m), x.def_name, 0);
        if at < m.len() && m[at].0 == x.def_name {
            assert(keyed::keys(out)[at] == x.def_name);
        } else {
            assert(out[at] == (x.def_name, x));
            assert(keyed::keys(out)[at] == x.def_name);
            if keyed::keys(m).contains(name) {
                let i = choose|i: int| 0 <= i < m.len() && keyed::keys(m)[i] == name;
                assert(m[i].0 == name);
                if i < at {
                    assert(keyed::keys(out)[i] == name);
                } else {
                    assert(out[i + 1] == m[i]);
                    assert(keyed::keys(out)[i + 1] == name);
                }
            }
        }
    }
}

/// A page defines every struct that a property refers to, by itself or by its
/// items, and every object with properties of its own.
pub proof fn law_page_defines_every_struct(props: Seq<(String, CfnProperty)>, schema: CfnSchema, i: int, def_name: Seq<char>, def: CfnDefinition)
    requires
        0 <= i < props.len(),
        def.properties is Some,
        def.properties->0@.len() > 0,
    ensures
        ({
            let prop = props[i].1;
            let listed = keyed::keys(page::schema_structs(props, schema));
            &&& prop.ref_path is Some && !text::holds(prop.ref_path->0@, "/Tag"@) && type_laws::refers_to(
                schema,
                prop.ref_path->0@,
                def_name,
                def,
            ) ==> listed.contains(def_name)
            &&& prop.items is Some && prop.items->0.ref_path is Some && !text::holds(prop.items->0.ref_path->0@, "/Tag"@)
                && type_laws::refers_to(schema, prop.items->0.ref_path->0@, def_name, def) ==> listed.contains(def_name)
            &&& model::kind_name(prop) == Some("object"@) && prop.properties is Some && prop.properties->0@.len() > 0
                ==> listed.contains(props[i].0@)
        }),
    decreases props.len(),
{
    let before = props.drop_last();
    let prop = props[i].1;
    lemma_structs_grow(props, schema, def_name);
    lemma_structs_grow(props, schema, props[i].0@);
    if i < before.len() {
        assert(before[i] == props[i]);
        law_page_defines_every_struct(before, schema, i, def_name, def);
    } else {
        let m = page::schema_structs(before, schema);
        let found = page::property_structs(prop, props[i].0@, schema);
        page::lemma_structs_ascend(before, schema);
        if prop.ref_path is Some && type_laws::refers_to(schema, prop.ref_path->0@, def_name, def) {
            type_laws::law_references_are_resolved(schema, prop.ref_path->0@, def_name, def);
        }
        if prop.items is Some && prop.items->0.ref_path is Some && type_laws::refers_to(
            schema,
            prop.items->0.ref_path->0@,
            def_name,
            def,
        ) {
            type_laws::law_references_are_resolved(schema, prop.items->0.ref_path->0@, def_name, def);
        }
        let one = page::with_struct(m, found.0);
        let two = page::with_struct(one, found.1);
        lemma_with_struct(m, found.0, def_name);
        lemma_with_struct(one, found.1, def_name);
        lemma_with_struct(two, found.2, def_name);
        lemma_with_struct(two, found.2, props[i].0@);
    }
}

/// What a property contributes to the structs of a page are the fields of what it
/// refers to, by itself or by its items, or its own fields, with what is required of
/// them.
pub proof fn law_structs_have_the_fields_of_their_definitions(
    prop: CfnProperty,
    name: Seq<char>,
    schema: CfnSchema,
    def_name: Seq<char>,
    def: CfnDefinition,
)
    requires
        def.properties is Some,
        def.properties->0@.len() > 0,
    ensures
        ({
            let found = page::property_structs(prop, name, schema);
            let made = StructDefView {
                def_name,
                properties: def.properties->0@,
                required: text::strings(def.required@),
            };
            &&& prop.ref_path is Some && !text::holds(prop.ref_path->0@, "/Tag"@) && type_laws::refers_to(
                schema,
                prop.ref_path->0@,
                def_name,
                def,
            ) ==> found.0 == Some(made)
            &&& prop.items is Some && prop.items->0.ref_path is Some && !text::holds(prop.items->0.ref_path->0@, "/Tag"@)
                && type_laws::refers_to(schema, prop.items->0.ref_path->0@, def_name, def) ==> found.1 == Some(made)
            &&& model::kind_name(prop) == Some("object"@) && prop.properties is Some && prop.properties->0@.len() > 0
                ==> found.2 == Some(
                StructDefView {
                    def_name: name,
                    properties: prop.properties->0@,
                    required: text::strings(prop.required@),
                },
            )
            &&& prop.ref_path is None ==> found.0 is None
            &&& prop.items is None ==> found.1 is None
            &&& model::kind_name(prop) != Some("object"@) ==> found.2 is None
        }),
{
    if prop.ref_path is Some && type_laws::refers_to(schema, prop.ref_path->0@, def_name, def) {
        type_laws::law_references_are_resolved(schema, prop.ref_path->0@, def_name, def);
    }
    if prop.items is Some && prop.items->0.ref_path is Some && type_laws::refers_to(
        schema,
        prop.items->0.ref_path->0@,
        def_name,
        def,
    ) {
        type_laws::law_references_are_resolved(schema, prop.items->0.ref_path->0@, def_name, def);
    }
}

/// Every struct of a page is one that a property contributes, and stands under its
/// own name.
pub proof fn law_structs_of_a_page_come_from_properties(props: Seq<(String, CfnProperty)>, schema: CfnSchema, k: int)
    requires
        0 <= k < page::schema_structs(props, schema).len(),
    ensures
        ({
            let (name, d) = page::schema_structs(props, schema)[k];
            &&& d.def_name == name
            &&& exists|i: int| 0 <= i < props.len() && contributes(#[trigger] props[i], schema, d)
        }),
    decreases props.len(),
{
    let before = props.drop_last();
    let m = page::schema_structs(before, schema);
    let all = page::schema_structs(props, schema);
    page::lemma_structs_ascend(before, schema);
    if props.len() > 0 {
        let last = props.last();
        let found = page::property_structs(last.1, last.0@, schema);
        let one = page::with_struct(m, found.0);
        let two = page::with_struct(one, found.1);
        lemma_source(m, found.0);
        lemma_with_struct(m, found.0, last.0@);
        lemma_source(one, found.1);
        lemma_with_struct(one, found.1, last.0@);
        lemma_source(two, found.2);
        let e = all[k];
        assert(all.contains(e));
        if m.contains(e) {
            let j = choose|j: int| 0 <= j < m.len() && m[j] == e;
            law_structs_of_a_page_come_from_properties(before, schema, j);
            let i = choose|i: int| 0 <= i < before.len() && contributes(#[trigger] before[i], schema, e.1);
            assert(props[i] == before[i]);
        } else {
            assert(contributes(props[props.len() - 1], schema, e.1));
        }
    }
}

/// A property contributes a struct to a page.
pub open spec fn contributes(p: (String, CfnProperty), schema: CfnSchema, d: StructDefView) -> bool {
    let found = page::property_structs(p.1, p.0@, schema);
    found.0 == Some(d) || found.1 == Some(d) || found.2 == Some(d)
}

proof fn lemma_source(m: Seq<(Seq<char>, StructDefView)>, d: Option<StructDefView>)
    requires
        keyed::ascending(m),
    ensures
        forall|e: (Seq<char>, StructDefView)| #[trigger]
            page::with_struct(m, d).contains(e) ==> m.contains(e) || (d == Some(e.1) && e.0 == e.1.def_name),
{
    if let Some(x) = d {
        keyed::law_put_absent(m, x.def_name, x);
    }
}

/// A page shows each of its structs with its name and with a row for every field:
/// the name in snake case, the type, whether it is required, and what it is for.
pub proof fn law_page_shows_every_field(schema: CfnSchema, typename: Seq<char>, k: int, f: int)
    requires
        0 <= k < page::schema_structs(schema.properties@, schema).len(),
        0 <= f < page::schema_structs(schema.properties@, schema)[k].1.properties.len(),
    ensures
        ({
            let page = page::page_text(schema, typename);
            let d = page::schema_structs(schema.properties@, schema)[k].1;
            let name = d.properties[f].0@;
            let prop = d.properties[f].1;
            let line = if prop.description is Some {
                page::one_line(prop.description->0@)
            } else {
                page::one_line(""@)
            };
            &&& text::holds(page, "## Struct Definitions\n\n"@)
            &&& text::holds(page, "### "@ + d.def_name + "\n\n"@)
            &&& text::holds(
                page,
                "| `"@ + casing::snake_case(name) + "` | "@ + page::field_display(name, prop) + (if d.required.contains(
                    name,
                ) {
                    " | Yes | "@
                } else {
                    " | No | "@
                }) + text::clipped(line, 100) + " |\n"@,
            )
        }),
{
    let defs = page::schema_structs(schema.properties@, schema);
    let d = defs[k].1;
    let name = d.properties[f].0@;
    let prop = d.properties[f].1;
    let section = page::struct_section(d);
    assert(page::struct_sections(defs)[k] == section);
    let head = "### "@ + d.def_name + "\n\n"@;
    let columns = "| Field | Type | Required | Description |\n"@ + "|-------|------|----------|-------------|\n"@;
    let acc = head + "| Field | Type | Required | Description |\n"@ + "|-------|------|----------|-------------|\n"@;
    assert(acc =~= head + columns);
    let rows = page::field_rows(d);
    let required = d.required.contains(name);
    let row = "| `"@ + casing::snake_case(name) + "` | "@ + page::field_display(name, prop) + (if required {
        " | Yes | "@
    } else {
        " | No | "@
    }) + text::clipped(page::field_line(prop), 100) + " |\n"@;
    reveal_strlit(" | Yes | ");
    reveal_strlit(" | No | ");
    reveal_strlit(" | ");
    reveal_strlit("Yes");
    reveal_strlit("No");
    assert(" | Yes | "@ =~= " | "@ + "Yes"@ + " | "@);
    assert(" | No | "@ =~= " | "@ + "No"@ + " | "@);
    assert(rows[f] =~= row);
    lemma_holds_itself(head);
    lemma_holds_within(head, columns, head);
    lemma_cat_holds(acc, rows, f, head);
    lemma_holds_itself(row);
    lemma_cat_holds(acc, rows, f, row);
    lemma_holds_within(text::cat(acc, rows), "\n"@, head);
    lemma_holds_within(text::cat(acc, rows), "\n"@, row);
    lemma_page_parts(schema, typename, head, k);
    lemma_page_parts(schema, typename, row, k);
}

/// What a page calls the type of a field of a struct: what it would call a property
/// of that name and kind, save that known enums, structs and maps are not linked.
pub proof fn law_fields_are_shown_like_properties(name: Seq<char>, prop: CfnProperty, schema: CfnSchema)
    requires
        name != "Tags"@,
        prop.ref_path is None,
        prop.items matches Some(items) ==> items.ref_path is None,
        model::kind_name(prop) matches Some(k) && (k == "string"@ || k == "boolean"@ || k == "integer"@ || k == "number"@
            || k == "array"@),
    ensures
        page::field_display(name, prop) == if keyed::lookup(tables::enum_table(), name) is Some {
            "Enum"@
        } else {
            page::type_display(name, prop, schema, Seq::empty())
        },
{
    type_laws::lemma_kinds();
}

/// A field that is an object is a map on a page, and one of no kind is named by its
/// name alone. A property of no kind is a text.
pub proof fn law_fields_of_other_kinds_are_shown(name: Seq<char>, prop: CfnProperty, schema: CfnSchema)
    requires
        keyed::lookup(tables::enum_table(), name) is None,
    ensures
        model::kind_name(prop) == Some("object"@) ==> page::field_display(name, prop) == "Map"@,
        model::kind_name(prop) is None ==> page::field_display(name, prop) == names::string_display(name),
        model::kind_name(prop) is None && prop.ref_path is None && name != "Tags"@ ==> page::type_display(
            name,
            prop,
            schema,
            Seq::empty(),
        ) == "String"@,
        model::kind_name(prop) == Some("string"@) && text::finishes_with(name, "PolicyDocument"@) ==> page::field_display(
            name,
            prop,
        ) == "IamPolicyDocument"@,
        model::kind_name(prop) == Some("string"@) && !text::finishes_with(name, "PolicyDocument"@) ==> page::field_display(
            name,
            prop,
        ) == names::string_display(name),
{
    type_laws::lemma_kinds();
}

/// A description without line ends and without two spaces side by side stays as it
/// is on a page.
pub proof fn law_plain_lines_stay(d: Seq<char>)
    requires
        !d.contains('\n'),
        forall|i: int| 0 <= i < d.len() - 1 ==> !(#[trigger] d[i] == ' ' && d[i + 1] == ' '),
    ensures
        page::one_line(d) == d,
{
    reveal_strlit("  ");
    assert(text::swapped(d, '\n', ' ') =~= d) by {
        assert forall|i: int| 0 <= i < d.len() implies d[i] != '\n' by {
            assert(d.contains(d[i]));
        }
    }
    text::lemma_first_from(d, "  "@, 0);
    if let Some(i) = text::first_from(d, "  "@, 0) {
        assert(d.subrange(i, i + 2)[0] == ' ');
        assert(d.subrange(i, i + 2)[1] == ' ');
        assert(d[i] == ' ' && d[i + 1] == ' ');
    }
}

/// On a page a line end counts as a space, and nothing of it is left. Of two spaces
/// side by side one is left.
pub proof fn law_lines_become_one(before: Seq<char>, after: Seq<char>)
    ensures
        page::one_line(before + seq!['\n'] + after) == page::one_line(before + seq![' '] + after),
        !before.contains('\n') && !after.contains('\n') && text::first_from(
            before + "  "@ + after,
            "  "@,
            0,
        ) == Some(before.len() as int) ==> page::one_line(before + "  "@ + after) == before + " "@ + page::one_line(after),
{
    let x = before + seq!['\n'] + after;
    let y = before + seq![' '] + after;
    assert(text::swapped(x, '\n', ' ') =~= text::swapped(y, '\n', ' '));
    if !before.contains('\n') && !after.contains('\n') && text::first_from(before + "  "@ + after, "  "@, 0) == Some(
        before.len() as int,
    ) {
        reveal_strlit("  ");
        let s = before + "  "@ + after;
        if s.contains('\n') {
            let i = choose|i: int| 0 <= i < s.len() && s[i] == '\n';
            if i < before.len() {
                assert(before[i] == '\n');
            } else if i >= before.len() + 2 {
                assert(after[i - before.len() - 2] == '\n');
            }
        }
        text_laws::law_swapping_changes_one_character(s, '\n', ' ');
        text_laws::law_swapping_changes_one_character(after, '\n', ' ');
        text_laws::law_replacing_goes_from_left_to_right(before, "  "@, " "@, after);
    }
}

} // verus!
