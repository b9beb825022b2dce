//! Analytics views derived from a list of breach records: pie-chart slices and
//! fill styles, radial-stack elements, a geographic list and a summary.

use vstd::prelude::*;
use crate::palette::{generate_color, is_palette_color};
use crate::records::{copy_breach_infos, infos_view, BreachInfo, BreachInfoView};
use crate::text::{decimal, decimal_string};

verus! {

/// The breach records found for an email address.
pub struct EmailStats {
    pub breach_info: Vec<BreachInfo>,
}

/// The durable-cache document for an email address, which is its identity.
pub struct CachedEmailStats {
    pub _id: String,
    pub email_stats: EmailStats,
}

/// The breach records found for a domain.
pub struct DomainStats {
    pub breach_info: Vec<BreachInfo>,
}

pub struct EmailAnalytics {
    pub chart_data: PieChartData,
    pub radial_stack_data: RadialStackData,
    pub geo_data: GeoGraphData,
    pub bento_data: BentoData,
    pub list_data: Vec<BreachInfo>,
}

pub struct RadialStackData {
    pub data: Vec<RadialStackElementData>,
    pub config: RadialStackConfig,
}

pub struct RadialStackElementData {
    pub leak_name: String,
    pub visitors: u64,
    pub fill: String,
}

pub struct RadialStackConfig {
    pub total_found: TotalFoundLabel,
}

pub struct TotalFoundLabel {
    pub label: String,
}

pub struct PieChartData {
    pub data: Vec<ChartElementData>,
    pub fill_info: Vec<FillInfo>,
}

/// Names the breach that a fill style applies to.
pub struct Match {
    pub id: String,
}

/// A fill style (`dots` or `lines`) for one slice.
pub struct FillInfo {
    pub match_: Match,
    pub id: String,
}

pub struct GeoGraphData {
    pub data: Vec<GeoGraphElementData>,
}

pub struct ChartElementData {
    pub id: String,
    pub label: String,
    pub value: String,
    pub color: String,
}

/// A country code and the number of accounts of one breach.
pub struct GeoGraphElementData {
    pub id: String,
    pub value: String,
}

pub struct BentoData {
    pub total_records: TotalRecords,
    pub total_breaches: TotalBreaches,
    pub total_detected_breaches: TotalDetectedBreaches,
    pub total_sensitive_breaches: TotalSensitiveBreaches,
}

pub struct TotalRecords {
    pub field_name: String,
    pub value: String,
    pub increase_percentage: String,
}

pub struct TotalBreaches {
    pub field_name: String,
    pub value: String,
    pub increase_percentage: String,
}

pub struct TotalSensitiveBreaches {
    pub field_name: String,
    pub value: String,
    pub increase_percentage: String,
}

pub struct TotalDetectedBreaches {
    pub field_name: String,
    pub value: String,
    pub increase_percentage: String,
}

/// The number of accounts of a breach, zero where the provider gave none.
pub open spec fn pwn_or_zero(b: BreachInfoView) -> u64 {
    match b.record.pwn_count {
        Some(n) => n,
        None => 0,
    }
}

/// The sum of the account numbers of all records.
pub open spec fn total_pwn(s: Seq<BreachInfoView>) -> nat
    decreases s.len(),
{
    if s.len() == 0 {
        0
    } else {
        total_pwn(s.drop_last()) + pwn_or_zero(s.last()) as nat
    }
}

/// The number of records flagged sensitive.
pub open spec fn sensitive_count(s: Seq<BreachInfoView>) -> nat
    decreases s.len(),
{
    if s.len() == 0 {
        0
    } else {
        sensitive_count(s.drop_last()) + if s.last().record.is_sensitive == Some(true) {
            1nat
        } else {
            0nat
        }
    }
}

/// The fill style of the `i`-th slice: `dots` and `lines` in turn, from `dots`.
pub open spec fn fill_style(i: int) -> Seq<char> {
    if i % 2 == 0 {
        "dots"@
    } else {
        "lines"@
    }
}

pub open spec fn geo_matches(recs: Seq<BreachInfoView>, g: GeoGraphData) -> bool {
    &&& g.data@.len() == recs.len()
    &&& forall|i: int|
        0 <= i < recs.len() ==> {
            &&& (#[trigger] g.data@[i]).id@ == recs[i].country_code
            &&& g.data@[i].value@ == decimal(pwn_or_zero(recs[i]) as nat)
        }
}

pub open spec fn bento_matches(recs: Seq<BreachInfoView>, b: BentoData) -> bool {
    &&& b.total_records.field_name@ == "Total Records"@
    &&& b.total_records.value@ == decimal(total_pwn(recs))
    &&& b.total_records.increase_percentage@ == "100"@
    &&& b.total_breaches.field_name@ == "Total Breaches"@
    &&& b.total_breaches.value@ == "789"@
    &&& b.total_breaches.increase_percentage@ == "100"@
    &&& b.total_sensitive_breaches.field_name@ == "Total Sensitive Breaches"@
    &&& b.total_sensitive_breaches.value@ == decimal(sensitive_count(recs))
    &&& b.total_sensitive_breaches.increase_percentage@ == "100"@
    &&& b.total_detected_breaches.field_name@ == "Total Detected Breaches"@
    &&& b.total_detected_breaches.value@ == decimal(recs.len())
    &&& b.total_detected_breaches.increase_percentage@ == "100"@
}

pub open spec fn radial_matches(recs: Seq<BreachInfoView>, r: RadialStackData) -> bool {
    &&& r.data@.len() == recs.len()
    &&& forall|i: int|
        0 <= i < recs.len() ==> {
            &&& (#[trigger] r.data@[i]).leak_name@ == recs[i].record.name
            &&& r.data@[i].visitors == pwn_or_zero(recs[i])
            &&& is_palette_color(r.data@[i].fill@)
        }
    &&& r.config.total_found.label@ == "Total Found"@
}

pub open spec fn pie_matches(recs: Seq<BreachInfoView>, p: PieChartData) -> bool {
    &&& p.data@.len() == recs.len()
    &&& forall|i: int|
        0 <= i < recs.len() ==> {
            &&& (#[trigger] p.data@[i]).id@ == recs[i].record.name
            &&& p.data@[i].label@ == recs[i].record.name
            &&& p.data@[i].value@ == decimal(pwn_or_zero(recs[i]) as nat)
            &&& is_palette_color(p.data@[i].color@)
        }
    &&& p.fill_info@.len() == recs.len()
    &&& forall|i: int|
        0 <= i < recs.len() ==> {
            &&& (#[trigger] p.fill_info@[i]).match_.id@ == recs[i].record.name
            &&& p.fill_info@[i].id@ == fill_style(i)
        }
}

pub open spec fn analytics_matches(recs: Seq<BreachInfoView>, a: EmailAnalytics) -> bool {
    &&& pie_matches(recs, a.chart_data)
    &&& radial_matches(recs, a.radial_stack_data)
    &&& geo_matches(recs, a.geo_data)
    &&& bento_matches(recs, a.bento_data)
    &&& infos_view(a.list_data@) == recs
}

/// Derives the analytics views from a list of breach records.
pub trait EmailStatsConverter {
    /// The records the views are derived from.
    spec fn records(&self) -> Seq<BreachInfoView>;

    fn convert_to_email_analytics(&self) -> (r: EmailAnalytics)
        ensures
            analytics_matches(self.records(), r),
    ;

    fn create_bento_data(&self) -> (r: BentoData)
        ensures
            bento_matches(self.records(), r),
    ;

    fn create_geo_graph_data(&self) -> (r: GeoGraphData)
        ensures
            geo_matches(self.records(), r),
    ;

    fn create_radial_stack_data(&self) -> (r: RadialStackData)
        ensures
            radial_matches(self.records(), r),
    ;
}

fn pwn_count_of(b: &BreachInfo) -> (r: u64)
    ensures
        r == pwn_or_zero(b@),
{
    match b.pwn_count {
        Some(n) => n,
        None => 0,
    }
}

fn create_pie_chart_data(breach_info: &Vec<BreachInfo>) -> (r: PieChartData)
    ensures
        pie_matches(infos_view(breach_info@), r),
{
    let ghost recs = infos_view(breach_info@);
    let mut data: Vec<ChartElementData> = Vec::new();
    let mut fill_info: Vec<FillInfo> = Vec::new();
    let mut i: usize = 0;
    while i < breach_info.len()
        invariant
            i <= breach_info@.len(),
            recs == infos_view(breach_info@),
            data@.len() == i,
            fill_info@.len() == i,
            forall|j: int|
                0 <= j < i ==> {
                    &&& (#[trigger] data@[j]).id@ == recs[j].record.name
                    &&& data@[j].label@ == recs[j].record.name
                    &&& data@[j].value@ == decimal(pwn_or_zero(recs[j]) as nat)
                    &&& is_palette_color(data@[j].color@)
                },
            forall|j: int|
                0 <= j < i ==> {
                    &&& (#[trigger] fill_info@[j]).match_.id@ == recs[j].record.name
                    &&& fill_info@[j].id@ == fill_style(j)
                },
        decreases breach_info@.len() - i,
    {
        let breach = &breach_info[i];
        let color = generate_color();
        let value = decimal_string(pwn_count_of(breach) as u128);
        data.push(
            ChartElementData {
                id: breach.name.clone(),
                label: breach.name.clone(),
                value,
                color,
            },
        );
        let style = if i % 2 == 0 {
            String::from_str("dots")
        } else {
            String::from_str("lines")
        };
        fill_info.push(FillInfo { match_: Match { id: breach.name.clone() }, id: style });
        i = i + 1;
    }
    PieChartData { data, fill_info }
}

impl EmailStatsConverter for EmailStats {
    open spec fn records(&self) -> Seq<BreachInfoView> {
        infos_view(self.breach_info@)
    }

    fn create_geo_graph_data(&self) -> (r: GeoGraphData) {
        let ghost recs = infos_view(self.breach_info@);
        let mut geo_data: Vec<GeoGraphElementData> = Vec::new();
        let mut i: usize = 0;
        while i < self.breach_info.len()
            invariant
                i <= self.breach_info@.len(),
                recs == infos_view(self.breach_info@),
                geo_data@.len() == i,
                forall|j: int|
                    0 <= j < i ==> {
                        &&& (#[trigger] geo_data@[j]).id@ == recs[j].country_code
                        &&& geo_data@[j].value@ == decimal(pwn_or_zero(recs[j]) as nat)
                    },
            decreases self.breach_info@.len() - i,
        {
            let breach = &self.breach_info[i];
            geo_data.push(
                GeoGraphElementData {
                    id: breach.country_code.clone(),
                    value: decimal_string(pwn_count_of(breach) as u128),
                },
            );
            i = i + 1;
        }
        GeoGraphData { data: geo_data }
    }

    fn create_bento_data(&self) -> (r: BentoData) {
        let ghost recs = infos_view(self.breach_info@);
        let mut total: u128 = 0;
        let mut sensitive: usize = 0;
        let mut i: usize = 0;
        while i < self.breach_info.len()
            invariant
                i <= self.breach_info@.len(),
                recs == infos_view(self.breach_info@),
                total == total_pwn(recs.subrange(0, i as int)),
                total <= i * 0xFFFF_FFFF_FFFF_FFFFu128,
                sensitive == sensitive_count(recs.subrange(0, i as int)),
                sensitive <= i,
            decreases self.breach_info@.len() - i,
        {
            let breach = &self.breach_info[i];
            let n = pwn_count_of(breach);
            proof {
                let p = recs.subrange(0, i + 1);
                assert(p.drop_last() =~= recs.subrange(0, i as int));
                assert(p.last() == recs[i as int]);
                assert(i < 0x1_0000_0000_0000_0000);
                assert(total + n <= (i + 1) * 0xFFFF_FFFF_FFFF_FFFFu128) by (nonlinear_arith)
                    requires
                        total <= i * 0xFFFF_FFFF_FFFF_FFFFu128,
                        n <= 0xFFFF_FFFF_FFFF_FFFFu64,
                ;
                assert((i + 1) * 0xFFFF_FFFF_FFFF_FFFFu128 <= 0x1_0000_0000_0000_0000 * 0xFFFF_FFFF_FFFF_FFFFu128) by (nonlinear_arith)
                    requires
                        i < 0x1_0000_0000_0000_0000,
                ;
            }
            total = total + n as u128;
            match breach.is_sensitive {
                Some(true) => {
                    sensitive = sensitive + 1;
                },
                _ => {},
            }
            i = i + 1;
        }
        proof {
            assert(recs.subrange(0, recs.len() as int) =~= recs);
        }
        let detected = self.breach_info.len();
        BentoData {
            total_records: TotalRecords {
                field_name: String::from_str("Total Records"),
                value: decimal_string(total),
                increase_percentage: String::from_str("100"),
            },
            total_breaches: TotalBreaches {
                field_name: String::from_str("Total Breaches"),
                value: String::from_str("789"),
                increase_percentage: String::from_str("100"),
            },
            total_sensitive_breaches: TotalSensitiveBreaches {
                field_name: String::from_str("Total Sensitive Breaches"),
                value: decimal_string(sensitive as u128),
                increase_percentage: String::from_str("100"),
            },
            total_detected_breaches: TotalDetectedBreaches {
                field_name: String::from_str("Total Detected Breaches"),
                value: decimal_string(detected as u128),
                increase_percentage: String::from_str("100"),
            },
        }
    }

    fn create_radial_stack_data(&self) -> (r: RadialStackData) {
        let ghost recs = infos_view(self.breach_info@);
        let mut data: Vec<RadialStackElementData> = Vec::new();
        let mut i: usize = 0;
        while i < self.breach_info.len()
            invariant
                i <= self.breach_info@.len(),
                recs == infos_view(self.breach_info@),
                data@.len() == i,
                forall|j: int|
                    0 <= j < i ==> {
                        &&& (#[trigger] data@[j]).leak_name@ == recs[j].record.name
                        &&& data@[j].visitors == pwn_or_zero(recs[j])
                        &&& is_palette_color(data@[j].fill@)
                    },
            decreases self.breach_info@.len() - i,
        {
            let breach = &self.breach_info[i];
            data.push(
                RadialStackElementData {
                    leak_name: breach.name.clone(),
                    visitors: pwn_count_of(breach),
                    fill: generate_color(),
                },
            );
            i = i + 1;
        }
        RadialStackData {
            data,
            config: RadialStackConfig {
                total_found: TotalFoundLabel { label: String::from_str("Total Found") },
            },
        }
    }

    fn convert_to_email_analytics(&self) -> (r: EmailAnalytics) {
        EmailAnalytics {
            chart_data: create_pie_chart_data(&self.breach_info),
            geo_data: self.create_geo_graph_data(),
            bento_data: self.create_bento_data(),
            list_data: copy_breach_infos(&self.breach_info),
            radial_stack_data: self.create_radial_stack_data(),
        }
    }
}

} // verus!
