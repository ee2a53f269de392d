use panopticon_m365::azure::log_analytics::{ResourceTarget, Target, TargetError, API_VERSION, BASE_URL};
use panopticon_m365::azure::sentinel::incidents::types::{
    parse_incident_classification, parse_incident_classification_reason,
    parse_incident_severity, parse_incident_status, AlertSeverity, AlertStatus, ConfidenceLevel,
    EntityKind, IncidentClassification, IncidentClassificationReason, IncidentSeverity,
    IncidentStatus, KillChainIntent, NameKind,
};
use panopticon_m365::azure::sentinel::{MalformedTarget, Target as Workspace};
use panopticon_m365::types::azure::{NameError, ProviderNamespace, ResourceGroup};

const GUID: &str = "12345678-1234-1234-1234-123456789abc";

#[test]
fn a_workspace_target_builds_its_query_url() {
    let target = Target::new(GUID.to_string());
    assert_eq!(target.workspace_id(), GUID);
    assert_eq!(
        target.query_url(),
        "https://api.loganalytics.azure.com/v1/workspaces/12345678-1234-1234-1234-123456789abc/query"
    );
    assert_eq!(target.query_url(), format!("{}/{}/workspaces/{}/query", BASE_URL, API_VERSION, GUID));
}

#[test]
fn a_workspace_is_read_from_a_guid() {
    let target = Target::try_from(GUID).unwrap();
    assert_eq!(target.workspace_id(), GUID);
    let padded = Target::try_from("  12345678-1234-1234-1234-123456789abc\n").unwrap();
    assert_eq!(padded.workspace_id(), GUID);
    assert_eq!(padded, target);
}

#[test]
fn what_is_no_guid_is_no_workspace() {
    assert_eq!(Target::try_from("").err(), Some(TargetError::EmptyWorkspaceId));
    assert_eq!(Target::try_from("   ").err(), Some(TargetError::EmptyWorkspaceId));
    assert_eq!(Target::try_from("abc").err(), Some(TargetError::NotAGuid));
    // 36 bytes, three hyphens
    assert_eq!(
        Target::try_from("12345678-1234-1234-1234x123456789abc").err(),
        Some(TargetError::NotAGuid)
    );
    // four hyphens, 35 bytes
    assert_eq!(
        Target::try_from("12345678-1234-1234-1234-123456789ab").err(),
        Some(TargetError::NotAGuid)
    );
    // 36 characters but more bytes
    assert_eq!(
        Target::try_from("1234567é-1234-1234-1234-123456789abc").err(),
        Some(TargetError::NotAGuid)
    );
    // the form is all that is looked at
    assert!(Target::try_from("zzzzzzzz-zzzz-zzzz-zzzz-zzzzzzzzzzzz").is_ok());
    assert!(Target::try_from("----aaaaaaaaaaaaaaaaaaaaaaaaaaaaaaaa").is_ok());
}

#[test]
fn target_errors_say_what_is_wrong() {
    assert_eq!(TargetError::EmptyWorkspaceId.message(), "Workspace ID cannot be empty");
    assert_eq!(
        TargetError::NotAGuid.message(),
        "Workspace ID must be a valid GUID (e.g., 'xxxxxxxx-xxxx-xxxx-xxxx-xxxxxxxxxxxx')"
    );
    assert_eq!(
        TargetError::NotAResourcePath.message(),
        "Resource path must be a valid Azure resource ID starting with /subscriptions/"
    );
}

#[test]
fn a_resource_target_builds_its_query_url() {
    let path = "/subscriptions/s1/resourceGroups/g1/providers/Microsoft.Compute/virtualMachines/vm";
    let target = ResourceTarget::new(path.to_string());
    assert_eq!(target.resource_path(), path);
    assert_eq!(
        target.query_url(),
        "https://api.loganalytics.azure.com/v1/subscriptions/s1/resourceGroups/g1/providers/Microsoft.Compute/virtualMachines/vm/query"
    );
    let slashes = ResourceTarget::new("///subscriptions/s1".to_string());
    assert_eq!(slashes.query_url(), "https://api.loganalytics.azure.com/v1/subscriptions/s1/query");
    let bare = ResourceTarget::new("subscriptions/s1".to_string());
    assert_eq!(bare.query_url(), "https://api.loganalytics.azure.com/v1/subscriptions/s1/query");
}

#[test]
fn a_resource_is_read_where_it_names_a_subscription() {
    let ok = ResourceTarget::try_from("/subscriptions/s1/x").unwrap();
    assert_eq!(ok.resource_path(), "/subscriptions/s1/x");
    let inner = ResourceTarget::try_from("prefix/subscriptions/s1").unwrap();
    assert_eq!(inner.resource_path(), "prefix/subscriptions/s1");
    assert_eq!(
        ResourceTarget::try_from("/subscription/s1").err(),
        Some(TargetError::NotAResourcePath)
    );
    assert_eq!(
        ResourceTarget::try_from("subscriptions/s1").err(),
        Some(TargetError::NotAResourcePath)
    );
    assert_eq!(ResourceTarget::try_from("").err(), Some(TargetError::NotAResourcePath));
}

const WORKSPACE: &str =
    "/subscriptions/sub-1/resourceGroups/rg-1/providers/Microsoft.OperationalInsights/workspaces/ws-1/";

#[test]
fn a_workspace_path_is_read() {
    let target = Workspace::parse(WORKSPACE).unwrap();
    assert_eq!(target.subscription_id(), "sub-1");
    assert_eq!(target.resource_group(), "rg-1");
    assert_eq!(target.workspace_name(), "ws-1");
    let again = Workspace::try_from(WORKSPACE).unwrap();
    assert_eq!(again, target);
}

#[test]
fn slashes_more_or_less_and_what_follows_do_not_matter() {
    let loose = Workspace::parse(
        "subscriptions//sub-1/resourceGroups/rg-1///providers/Microsoft.OperationalInsights/workspaces/ws-1/providers/Microsoft.SecurityInsights/incidents",
    )
    .unwrap();
    assert_eq!(loose.subscription_id(), "sub-1");
    assert_eq!(loose.resource_group(), "rg-1");
    assert_eq!(loose.workspace_name(), "ws-1");
}

#[test]
fn what_is_no_workspace_path_is_refused() {
    let refused = [
        "",
        "/",
        "/subscriptions/sub-1/resourceGroups/rg-1/providers/Microsoft.OperationalInsights/workspaces",
        "/subscriptions/sub-1/resourceGroups/rg-1/providers/Microsoft.OperationalInsights/workspaces/",
        "/subscription/sub-1/resourceGroups/rg-1/providers/Microsoft.OperationalInsights/workspaces/ws-1",
        "/subscriptions/sub-1/resourcegroups/rg-1/providers/Microsoft.OperationalInsights/workspaces/ws-1",
        "/subscriptions/sub-1/resourceGroups/rg-1/provider/Microsoft.OperationalInsights/workspaces/ws-1",
        "/subscriptions/sub-1/resourceGroups/rg-1/providers/Microsoft.Compute/workspaces/ws-1",
        "/subscriptions/sub-1/resourceGroups/rg-1/providers/Microsoft.OperationalInsights/workspace/ws-1",
        "/x/subscriptions/sub-1/resourceGroups/rg-1/providers/Microsoft.OperationalInsights/workspaces/ws-1",
    ];
    for path in refused {
        assert_eq!(Workspace::parse(path).err(), Some(MalformedTarget), "{path}");
    }
    assert_eq!(
        MalformedTarget.message(),
        "Target must be in the format /subscriptions/{subscriptionId}/resourceGroups/{resourceGroupName}/providers/Microsoft.OperationalInsights/workspaces/{workspaceName}/"
    );
}

#[test]
fn the_urls_of_a_workspace() {
    let target = Workspace::parse(WORKSPACE).unwrap();
    let provider = "https://management.azure.com/subscriptions/sub-1/resourceGroups/rg-1/providers/Microsoft.OperationalInsights/workspaces/ws-1/providers/Microsoft.SecurityInsights";
    assert_eq!(target.provider_url(), provider);
    assert_eq!(
        target.resource_url("incident", None),
        format!("{provider}/incidents?api-version=2025-09-01")
    );
    assert_eq!(
        target.resource_url("incident", Some("i-7")),
        format!("{provider}/incidents/i-7?api-version=2025-09-01")
    );
    assert_eq!(
        target.incident_sub_resource_url("i-7", "alerts"),
        format!("{provider}/incidents/i-7/alerts?api-version=2025-09-01")
    );
}

#[test]
fn severities_are_read_by_name() {
    assert_eq!(parse_incident_severity("High"), Ok(IncidentSeverity::High));
    assert_eq!(parse_incident_severity("Medium"), Ok(IncidentSeverity::Medium));
    assert_eq!(parse_incident_severity("Low"), Ok(IncidentSeverity::Low));
    assert_eq!(parse_incident_severity("Informational"), Ok(IncidentSeverity::Informational));
    let e = parse_incident_severity("high").unwrap_err();
    assert_eq!(e.kind, NameKind::Severity);
    assert_eq!(e.given, "high");
    assert_eq!(
        e.message(),
        "Invalid severity 'high'. Must be: High, Medium, Low, or Informational"
    );
    assert!(parse_incident_severity("").is_err());
    assert!(parse_incident_severity(" High").is_err());
}

#[test]
fn statuses_are_read_by_name() {
    assert_eq!(parse_incident_status("New"), Ok(IncidentStatus::New));
    assert_eq!(parse_incident_status("Active"), Ok(IncidentStatus::Active));
    assert_eq!(parse_incident_status("Closed"), Ok(IncidentStatus::Closed));
    let e = parse_incident_status("Open").unwrap_err();
    assert_eq!(e.kind, NameKind::Status);
    assert_eq!(e.message(), "Invalid status 'Open'. Must be: New, Active, or Closed");
}

#[test]
fn classifications_are_read_by_name() {
    assert_eq!(
        parse_incident_classification("Undetermined"),
        Ok(IncidentClassification::Undetermined)
    );
    assert_eq!(
        parse_incident_classification("TruePositive"),
        Ok(IncidentClassification::TruePositive)
    );
    assert_eq!(
        parse_incident_classification("BenignPositive"),
        Ok(IncidentClassification::BenignPositive)
    );
    assert_eq!(
        parse_incident_classification("FalsePositive"),
        Ok(IncidentClassification::FalsePositive)
    );
    let e = parse_incident_classification("Positive").unwrap_err();
    assert_eq!(e.kind, NameKind::Classification);
    assert_eq!(
        e.message(),
        "Invalid classification 'Positive'. Must be: Undetermined, TruePositive, BenignPositive, or FalsePositive"
    );
}

#[test]
fn classification_reasons_are_read_by_name() {
    assert_eq!(
        parse_incident_classification_reason("SuspiciousActivity"),
        Ok(IncidentClassificationReason::SuspiciousActivity)
    );
    assert_eq!(
        parse_incident_classification_reason("SuspiciousButExpected"),
        Ok(IncidentClassificationReason::SuspiciousButExpected)
    );
    assert_eq!(
        parse_incident_classification_reason("IncorrectAlertLogic"),
        Ok(IncidentClassificationReason::IncorrectAlertLogic)
    );
    assert_eq!(
        parse_incident_classification_reason("InaccurateData"),
        Ok(IncidentClassificationReason::InaccurateData)
    );
    let e = parse_incident_classification_reason("x").unwrap_err();
    assert_eq!(e.kind, NameKind::ClassificationReason);
    assert_eq!(
        e.message(),
        "Invalid classification reason 'x'. Must be: SuspiciousActivity, SuspiciousButExpected, IncorrectAlertLogic, or InaccurateData"
    );
}

#[test]
fn names_are_those_that_debug_prints() {
    for v in [
        IncidentSeverity::High,
        IncidentSeverity::Medium,
        IncidentSeverity::Low,
        IncidentSeverity::Informational,
    ] {
        assert_eq!(v.name(), format!("{:?}", v));
        assert_eq!(parse_incident_severity(v.name()), Ok(v));
    }
    for v in [IncidentStatus::New, IncidentStatus::Active, IncidentStatus::Closed] {
        assert_eq!(v.name(), format!("{:?}", v));
        assert_eq!(parse_incident_status(v.name()), Ok(v));
    }
    for v in [
        IncidentClassification::Undetermined,
        IncidentClassification::TruePositive,
        IncidentClassification::BenignPositive,
        IncidentClassification::FalsePositive,
    ] {
        assert_eq!(v.name(), format!("{:?}", v));
        assert_eq!(parse_incident_classification(v.name()), Ok(v));
    }
    for v in [
        IncidentClassificationReason::SuspiciousActivity,
        IncidentClassificationReason::SuspiciousButExpected,
        IncidentClassificationReason::IncorrectAlertLogic,
        IncidentClassificationReason::InaccurateData,
    ] {
        assert_eq!(v.name(), format!("{:?}", v));
        assert_eq!(parse_incident_classification_reason(v.name()), Ok(v));
    }
    assert_eq!(AlertSeverity::Informational.name(), "Informational");
    assert_eq!(AlertStatus::InProgress.name(), "InProgress");
    assert_eq!(ConfidenceLevel::Unknown.name(), "Unknown");
    assert_eq!(KillChainIntent::CommandAndControl.name(), "CommandAndControl");
    assert_eq!(EntityKind::DnsResolution.name(), "DnsResolution");
    assert_eq!(EntityKind::IoTDevice.name(), format!("{:?}", EntityKind::IoTDevice));
}

#[test]
fn provider_namespaces_have_two_parts() {
    assert!(ProviderNamespace::try_from("Microsoft.Compute").is_ok());
    assert!(ProviderNamespace::try_from("a.b").is_ok());
    assert!(ProviderNamespace::try_from("Microsoft9.Comp7").is_ok());
    assert!(ProviderNamespace::try_from("é.٣").is_ok());
    for form in ["", "Microsoft", "a.b.c", "..", "a..b"] {
        assert_eq!(ProviderNamespace::try_from(form).err(), Some(NameError::NamespaceForm), "{form}");
    }
    for characters in [".", "a.", ".b", "a b.c", "a.b-c", "a_.b", " a.b"] {
        assert_eq!(
            ProviderNamespace::try_from(characters).err(),
            Some(NameError::NamespaceCharacters),
            "{characters}"
        );
    }
    assert_eq!(
        NameError::NamespaceForm.message(),
        "Provider Namespace must be in the format 'prefix.suffix'"
    );
    assert_eq!(
        NameError::NamespaceCharacters.message(),
        "Provider Namespace parts must be alphanumerics only"
    );
}

#[test]
fn resource_group_names_follow_the_rules() {
    assert_eq!(ResourceGroup::try_from("my-group_(1).x").unwrap().name(), "my-group_(1).x");
    assert!(ResourceGroup::try_from("a").is_ok());
    assert!(ResourceGroup::try_from(&"a".repeat(90)).is_ok());
    assert!(ResourceGroup::try_from("grüppe").is_ok());
    assert_eq!(ResourceGroup::try_from("").err(), Some(NameError::GroupLength));
    assert_eq!(ResourceGroup::try_from(&"a".repeat(91)).err(), Some(NameError::GroupLength));
    // 46 characters of two bytes each are too long
    assert_eq!(ResourceGroup::try_from(&"é".repeat(46)).err(), Some(NameError::GroupLength));
    assert!(ResourceGroup::try_from(&"é".repeat(45)).is_ok());
    assert_eq!(ResourceGroup::try_from("group.").err(), Some(NameError::GroupEndsWithPeriod));
    assert_eq!(ResourceGroup::try_from(".").err(), Some(NameError::GroupEndsWithPeriod));
    assert_eq!(ResourceGroup::try_from("my group").err(), Some(NameError::GroupCharacters));
    assert_eq!(ResourceGroup::try_from("a/b").err(), Some(NameError::GroupCharacters));
    // the period at the end is told before the characters
    assert_eq!(ResourceGroup::try_from("a b.").err(), Some(NameError::GroupEndsWithPeriod));
    assert_eq!(
        NameError::GroupLength.message(),
        "Resource Group name must be between 1 and 90 characters"
    );
    assert_eq!(
        NameError::GroupEndsWithPeriod.message(),
        "Resource Group name cannot end with a period"
    );
    assert_eq!(
        NameError::GroupCharacters.message(),
        "Resource Group name contains invalid characters"
    );
}
