//! Exports: the CSV records of resources and findings, which exports exist, and their
//! file names.

use vstd::prelude::*;
use crate::detector::{Finding, FindingV};
use crate::gcp::parse::{join_strings, join_with, strings_view};
use crate::numfmt::{push_two_decimals, two_decimals};
use crate::provider::{provider_name, resource_type_name, CloudResource, ResourceV};
use crate::rules::severity_name;
use crate::text::{cat3, str_eq};

verus! {

/// The header of a resource export.
pub open spec fn resource_header() -> Seq<Seq<char>> {
    seq![
        "Name"@,
        "Type"@,
        "Status"@,
        "Region"@,
        "Provider"@,
        "Monthly Cost"@,
        "Created"@,
        "ID"@,
        "Tags"@,
    ]
}

/// The header row of a resource export.
pub fn resources_header() -> (r: Vec<String>)
    ensures
        strings_view(r@) == resource_header(),
{
    let r = vec![
        String::from_str("Name"),
        String::from_str("Type"),
        String::from_str("Status"),
        String::from_str("Region"),
        String::from_str("Provider"),
        String::from_str("Monthly Cost"),
        String::from_str("Created"),
        String::from_str("ID"),
        String::from_str("Tags"),
    ];
    assert(strings_view(r@) =~= resource_header());
    r
}

/// A monthly cost in dollars with two decimals; empty without an estimate.
pub open spec fn cost_text(c: Option<u64>) -> Seq<char> {
    match c {
        Some(x) => two_decimals(x as nat),
        None => Seq::empty(),
    }
}

/// Tags written `key=value`, joined with `; `.
pub open spec fn tags_text(tags: Seq<(Seq<char>, Seq<char>)>) -> Seq<char> {
    join_with(tags.map_values(|t: (Seq<char>, Seq<char>)| t.0 + "="@ + t.1), "; "@)
}

/// The export record of a resource.
pub open spec fn resource_record(r: ResourceV) -> Seq<Seq<char>> {
    seq![
        r.name,
        resource_type_name(r.resource_type),
        r.status,
        r.region,
        provider_name(r.provider),
        cost_text(r.monthly_cost),
        match r.created_at {
            Some(c) => c,
            None => Seq::empty(),
        },
        r.id,
        tags_text(r.tags),
    ]
}

/// The export row of a resource.
pub fn resource_row(r: &CloudResource) -> (out: Vec<String>)
    ensures
        strings_view(out@) == resource_record(r@),
{
    let mut cost = String::new();
    match r.monthly_cost {
        Some(c) => {
            push_two_decimals(&mut cost, c);
            assert(cost@ =~= two_decimals(c as nat));
        },
        None => {
            assert(cost@ =~= Seq::<char>::empty());
        },
    }
    let mut pairs: Vec<String> = Vec::new();
    let n = r.tags.len();
    let mut i: usize = 0;
    let ghost tv = r@.tags;
    while i < n
        invariant
            n == r.tags@.len(),
            tv == r@.tags,
            i <= n,
            pairs@.len() == i,
            forall|j: int|
                0 <= j < i ==> (#[trigger] pairs@[j])@ == tv[j].0 + "="@ + tv[j].1,
        decreases n - i,
    {
        let (k, v) = &r.tags[i];
        pairs.push(cat3(k.as_str(), "=", v.as_str()));
        i = i + 1;
    }
    assert(strings_view(pairs@) =~= tv.map_values(|t: (Seq<char>, Seq<char>)| t.0 + "="@ + t.1));
    let tags = join_strings(&pairs, "; ");
    let created = match &r.created_at {
        Some(c) => c.clone(),
        None => String::new(),
    };
    let out = vec![
        r.name.clone(),
        String::from_str(r.resource_type.name()),
        r.status.clone(),
        r.region.clone(),
        r.provider.to_string(),
        cost,
        created,
        r.id.clone(),
        tags,
    ];
    assert(strings_view(out@) =~= resource_record(r@));
    out
}

/// The header of a findings export.
pub open spec fn finding_header() -> Seq<Seq<char>> {
    seq![
        "Resource"@,
        "Type"@,
        "Rule"@,
        "Severity"@,
        "Description"@,
        "Recommendation"@,
        "Monthly Savings"@,
        "Region"@,
    ]
}

/// The header row of a findings export.
pub fn findings_header() -> (r: Vec<String>)
    ensures
        strings_view(r@) == finding_header(),
{
    let r = vec![
        String::from_str("Resource"),
        String::from_str("Type"),
        String::from_str("Rule"),
        String::from_str("Severity"),
        String::from_str("Description"),
        String::from_str("Recommendation"),
        String::from_str("Monthly Savings"),
        String::from_str("Region"),
    ];
    assert(strings_view(r@) =~= finding_header());
    r
}

/// The export record of a finding.
pub open spec fn finding_record(f: FindingV) -> Seq<Seq<char>> {
    seq![
        f.resource_name,
        f.resource_type,
        f.rule_name,
        severity_name(f.severity),
        f.description,
        f.recommendation,
        two_decimals(f.estimated_monthly_savings as nat),
        f.region,
    ]
}

/// The export row of a finding.
pub fn finding_row(f: &Finding) -> (out: Vec<String>)
    ensures
        strings_view(out@) == finding_record(f@),
{
    let mut savings = String::new();
    push_two_decimals(&mut savings, f.estimated_monthly_savings);
    assert(savings@ =~= two_decimals(f.estimated_monthly_savings as nat));
    let out = vec![
        f.resource_name.clone(),
        f.resource_type.clone(),
        f.rule_name.clone(),
        String::from_str(f.severity.as_str()),
        f.description.clone(),
        f.recommendation.clone(),
        savings,
        f.region.clone(),
    ];
    assert(strings_view(out@) =~= finding_record(f@));
    out
}

/// The exports there are: a format (CSV or JSON) and what is exported.
#[derive(Clone, Copy, Debug, PartialEq, Eq, Structural)]
pub enum ExportKind {
    ResourcesCsv,
    FindingsCsv,
    ResourcesJson,
    FindingsJson,
    ReportJson,
}

/// The export a format and type ask for; other combinations are refused.
pub open spec fn export_kind_of(format: Seq<char>, export_type: Seq<char>) -> Option<ExportKind> {
    if format == "csv"@ && export_type == "resources"@ {
        Some(ExportKind::ResourcesCsv)
    } else if format == "csv"@ && export_type == "findings"@ {
        Some(ExportKind::FindingsCsv)
    } else if format == "json"@ && export_type == "resources"@ {
        Some(ExportKind::ResourcesJson)
    } else if format == "json"@ && export_type == "findings"@ {
        Some(ExportKind::FindingsJson)
    } else if format == "json"@ && export_type == "all"@ {
        Some(ExportKind::ReportJson)
    } else {
        None
    }
}

/// The export a format and type ask for, or the error for an invalid combination.
pub fn export_kind(format: &str, export_type: &str) -> (r: Result<ExportKind, String>)
    ensures
        match r {
            Ok(k) => export_kind_of(format@, export_type@) == Some(k),
            Err(e) => export_kind_of(format@, export_type@) is None && e@
                == "Invalid export format/type combination"@,
        },
{
    let csv = str_eq(format, "csv");
    let json = str_eq(format, "json");
    if csv && str_eq(export_type, "resources") {
        Ok(ExportKind::ResourcesCsv)
    } else if csv && str_eq(export_type, "findings") {
        Ok(ExportKind::FindingsCsv)
    } else if json && str_eq(export_type, "resources") {
        Ok(ExportKind::ResourcesJson)
    } else if json && str_eq(export_type, "findings") {
        Ok(ExportKind::FindingsJson)
    } else if json && str_eq(export_type, "all") {
        Ok(ExportKind::ReportJson)
    } else {
        Err(String::from_str("Invalid export format/type combination"))
    }
}

/// The error when an account has no scan to export.
pub fn no_scan_data() -> (r: String)
    ensures
        r@ == "No scan data available"@,
{
    String::from_str("No scan data available")
}

/// The file name of an export made at `stamp`.
pub open spec fn export_file_name_of(kind: ExportKind, stamp: Seq<char>) -> Seq<char> {
    match kind {
        ExportKind::ResourcesCsv => "r3x_resources_"@ + stamp + ".csv"@,
        ExportKind::FindingsCsv => "r3x_findings_"@ + stamp + ".csv"@,
        ExportKind::ResourcesJson => "r3x_resources_"@ + stamp + ".json"@,
        ExportKind::FindingsJson => "r3x_findings_"@ + stamp + ".json"@,
        ExportKind::ReportJson => "r3x_report_"@ + stamp + ".json"@,
    }
}

/// The file name of an export made at `stamp`.
pub fn export_file_name(kind: ExportKind, stamp: &str) -> (r: String)
    ensures
        r@ == export_file_name_of(kind, stamp@),
{
    match kind {
        ExportKind::ResourcesCsv => cat3("r3x_resources_", stamp, ".csv"),
        ExportKind::FindingsCsv => cat3("r3x_findings_", stamp, ".csv"),
        ExportKind::ResourcesJson => cat3("r3x_resources_", stamp, ".json"),
        ExportKind::FindingsJson => cat3("r3x_findings_", stamp, ".json"),
        ExportKind::ReportJson => cat3("r3x_report_", stamp, ".json"),
    }
}

/// `chrono::Utc::now().format("%Y%m%d_%H%M%S")`: the current UTC time as a compact stamp.
/// Nothing is promised of the text: it depends on the machine's clock.
#[verifier::external_body]
fn utc_file_stamp() -> String {
    chrono::Utc::now().format("%Y%m%d_%H%M%S").to_string()
}

/// The file name of an export made now.
pub fn export_file_name_now(kind: ExportKind) -> (r: String)
    ensures
        exists|stamp: Seq<char>| r@ == export_file_name_of(kind, stamp),
{
    let stamp = utc_file_stamp();
    export_file_name(kind, stamp.as_str())
}

/// Every export row has one field per header column.
pub proof fn law_rows_fit_headers(r: ResourceV, f: FindingV)
    ensures
        resource_record(r).len() == resource_header().len(),
        finding_record(f).len() == finding_header().len(),
{
}

/// The file format an export is written in.
pub open spec fn kind_format(k: ExportKind) -> Seq<char> {
    match k {
        ExportKind::ResourcesCsv | ExportKind::FindingsCsv => "csv"@,
        _ => "json"@,
    }
}

/// What an export holds: the resources, the findings, or all of it.
pub open spec fn kind_subject(k: ExportKind) -> Seq<char> {
    match k {
        ExportKind::ResourcesCsv | ExportKind::ResourcesJson => "resources"@,
        ExportKind::FindingsCsv | ExportKind::FindingsJson => "findings"@,
        ExportKind::ReportJson => "all"@,
    }
}

/// The export chosen for a format and an export type is written in that format and
/// holds that type: resources or findings as CSV or JSON, or everything as JSON; every
/// other combination is refused. Distinct requests therefore choose distinct exports,
/// and the file is named after what it holds and its format.
pub proof fn law_export_kind_matches_request(
    format: Seq<char>,
    export_type: Seq<char>,
    format2: Seq<char>,
    export_type2: Seq<char>,
    stamp: Seq<char>,
)
    ensures
        export_kind_of(format, export_type) is Some <==> (format == "csv"@ && (export_type
            == "resources"@ || export_type == "findings"@)) || (format == "json"@ && (export_type
            == "resources"@ || export_type == "findings"@ || export_type == "all"@)),
        export_kind_of(format, export_type) matches Some(k) ==> kind_format(k) == format
            && kind_subject(k) == export_type,
        export_kind_of(format, export_type) is Some && export_kind_of(format, export_type)
            == export_kind_of(format2, export_type2) ==> format == format2 && export_type
            == export_type2,
        export_kind_of(format, export_type) matches Some(k) ==> export_file_name_of(k, stamp)
            == "r3x_"@ + (if export_type == "all"@ {
            "report"@
        } else {
            export_type
        }) + "_"@ + stamp + "."@ + format,
{
    reveal_strlit("csv");
    reveal_strlit("json");
    reveal_strlit("resources");
    reveal_strlit("findings");
    reveal_strlit("all");
    reveal_strlit("report");
    reveal_strlit("r3x_");
    reveal_strlit("_");
    reveal_strlit(".");
    reveal_strlit("r3x_resources_");
    reveal_strlit("r3x_findings_");
    reveal_strlit("r3x_report_");
    reveal_strlit(".csv");
    reveal_strlit(".json");
    assert("csv"@.len() != "json"@.len());
    assert("resources"@.len() != "findings"@.len() && "resources"@.len() != "all"@.len()
        && "findings"@.len() != "all"@.len());
    match export_kind_of(format, export_type) {
        Some(k) => {
            let name = if export_type == "all"@ {
                "report"@
            } else {
                export_type
            };
            assert(export_file_name_of(k, stamp) =~= "r3x_"@ + name + "_"@ + stamp + "."@ + format);
        },
        None => {},
    }
}


/// Each column of an export holds what its header names: for a resource its name, type,
/// status, region, provider, monthly cost, creation time, id and tags; for a finding the
/// resource's name and type, the rule's name, the severity, the description, the
/// recommendation, the monthly savings and the region.
pub proof fn law_export_columns(r: ResourceV, f: FindingV)
    ensures
        resource_header()[0] == "Name"@ && resource_record(r)[0] == r.name,
        resource_header()[1] == "Type"@ && resource_record(r)[1] == resource_type_name(r.resource_type),
        resource_header()[2] == "Status"@ && resource_record(r)[2] == r.status,
        resource_header()[3] == "Region"@ && resource_record(r)[3] == r.region,
        resource_header()[4] == "Provider"@ && resource_record(r)[4] == provider_name(r.provider),
        resource_header()[5] == "Monthly Cost"@ && resource_record(r)[5] == cost_text(r.monthly_cost),
        resource_header()[6] == "Created"@ && resource_record(r)[6] == match r.created_at {
            Some(c) => c,
            None => Seq::empty(),
        },
        resource_header()[7] == "ID"@ && resource_record(r)[7] == r.id,
        resource_header()[8] == "Tags"@ && resource_record(r)[8] == tags_text(r.tags),
        finding_header()[0] == "Resource"@ && finding_record(f)[0] == f.resource_name,
        finding_header()[1] == "Type"@ && finding_record(f)[1] == f.resource_type,
        finding_header()[2] == "Rule"@ && finding_record(f)[2] == f.rule_name,
        finding_header()[3] == "Severity"@ && finding_record(f)[3] == severity_name(f.severity),
        finding_header()[4] == "Description"@ && finding_record(f)[4] == f.description,
        finding_header()[5] == "Recommendation"@ && finding_record(f)[5] == f.recommendation,
        finding_header()[6] == "Monthly Savings"@ && finding_record(f)[6] == two_decimals(
            f.estimated_monthly_savings as nat,
        ),
        finding_header()[7] == "Region"@ && finding_record(f)[7] == f.region,
        r.monthly_cost is None ==> cost_text(r.monthly_cost) == Seq::<char>::empty(),
{
}

} // verus!
