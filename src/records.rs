//! Breach records: the raw shape an upstream provider returns, and the shape
//! handed to callers, which adds a country code.

use vstd::prelude::*;

verus! {

/// What a breach record holds, as mathematical values.
pub struct BreachRecord {
    pub name: Seq<char>,
    pub title: Seq<char>,
    pub description: Seq<char>,
    pub domain: Option<Seq<char>>,
    pub breach_date: Option<Seq<char>>,
    pub added_date: Option<Seq<char>>,
    pub modified_date: Option<Seq<char>>,
    pub pwn_count: Option<u64>,
    pub data_classes: Option<Seq<Seq<char>>>,
    pub logo_path: Seq<char>,
    pub is_verified: Option<bool>,
    pub is_fabricated: Option<bool>,
    pub is_sensitive: Option<bool>,
    pub is_retired: Option<bool>,
    pub is_spamlist: Option<bool>,
    pub is_malicious_verified: Option<bool>,
    pub is_subscription_free: Option<bool>,
}

/// A breach record together with the country code derived for it.
pub struct BreachInfoView {
    pub record: BreachRecord,
    pub country_code: Seq<char>,
}

pub open spec fn opt_view(o: Option<String>) -> Option<Seq<char>> {
    match o {
        Some(s) => Some(s@),
        None => None,
    }
}

pub open spec fn strings_view(v: Vec<String>) -> Seq<Seq<char>> {
    v@.map_values(|s: String| s@)
}

pub open spec fn opt_strings_view(o: Option<Vec<String>>) -> Option<Seq<Seq<char>>> {
    match o {
        Some(v) => Some(strings_view(v)),
        None => None,
    }
}

/// One incident as an upstream provider reports it.
pub struct BreachName {
    pub name: String,
    pub title: String,
    pub description: String,
    pub domain: Option<String>,
    pub breach_date: Option<String>,
    pub added_date: Option<String>,
    pub modified_date: Option<String>,
    pub pwn_count: Option<u64>,
    pub data_classes: Option<Vec<String>>,
    pub logo_path: String,
    pub is_verified: Option<bool>,
    pub is_fabricated: Option<bool>,
    pub is_sensitive: Option<bool>,
    pub is_retired: Option<bool>,
    pub is_spamlist: Option<bool>,
    pub is_malicious_verified: Option<bool>,
    pub is_subscription_free: Option<bool>,
}

/// One incident as handed to callers.
pub struct BreachInfo {
    pub name: String,
    pub title: String,
    pub description: String,
    pub domain: Option<String>,
    pub breach_date: Option<String>,
    pub added_date: Option<String>,
    pub modified_date: Option<String>,
    pub pwn_count: Option<u64>,
    pub data_classes: Option<Vec<String>>,
    pub logo_path: String,
    pub is_verified: Option<bool>,
    pub is_fabricated: Option<bool>,
    pub is_sensitive: Option<bool>,
    pub is_retired: Option<bool>,
    pub is_spamlist: Option<bool>,
    pub is_malicious_verified: Option<bool>,
    pub is_subscription_free: Option<bool>,
    pub country_code: String,
}

impl View for BreachName {
    type V = BreachRecord;

    open spec fn view(&self) -> BreachRecord {
        BreachRecord {
            name: self.name@,
            title: self.title@,
            description: self.description@,
            domain: opt_view(self.domain),
            breach_date: opt_view(self.breach_date),
            added_date: opt_view(self.added_date),
            modified_date: opt_view(self.modified_date),
            pwn_count: self.pwn_count,
            data_classes: opt_strings_view(self.data_classes),
            logo_path: self.logo_path@,
            is_verified: self.is_verified,
            is_fabricated: self.is_fabricated,
            is_sensitive: self.is_sensitive,
            is_retired: self.is_retired,
            is_spamlist: self.is_spamlist,
            is_malicious_verified: self.is_malicious_verified,
            is_subscription_free: self.is_subscription_free,
        }
    }
}

impl View for BreachInfo {
    type V = BreachInfoView;

    open spec fn view(&self) -> BreachInfoView {
        BreachInfoView {
            record: BreachRecord {
                name: self.name@,
                title: self.title@,
                description: self.description@,
                domain: opt_view(self.domain),
                breach_date: opt_view(self.breach_date),
                added_date: opt_view(self.added_date),
                modified_date: opt_view(self.modified_date),
                pwn_count: self.pwn_count,
                data_classes: opt_strings_view(self.data_classes),
                logo_path: self.logo_path@,
                is_verified: self.is_verified,
                is_fabricated: self.is_fabricated,
                is_sensitive: self.is_sensitive,
                is_retired: self.is_retired,
                is_spamlist: self.is_spamlist,
                is_malicious_verified: self.is_malicious_verified,
                is_subscription_free: self.is_subscription_free,
            },
            country_code: self.country_code@,
        }
    }
}

/// The views of a list of breach records, in order.
pub open spec fn infos_view(v: Seq<BreachInfo>) -> Seq<BreachInfoView> {
    v.map_values(|b: BreachInfo| b@)
}

pub fn copy_opt_string(o: &Option<String>) -> (r: Option<String>)
    ensures
        opt_view(r) == opt_view(*o),
{
    match o {
        Some(s) => Some(s.clone()),
        None => None,
    }
}

pub fn copy_strings(v: &Vec<String>) -> (r: Vec<String>)
    ensures
        strings_view(r) == strings_view(*v),
{
    let mut r: Vec<String> = Vec::new();
    let mut i: usize = 0;
    while i < v.len()
        invariant
            i <= v@.len(),
            r@.len() == i,
            forall|j: int| 0 <= j < i ==> (#[trigger] r@[j])@ == v@[j]@,
        decreases v@.len() - i,
    {
        r.push(v[i].clone());
        i = i + 1;
    }
    assert(strings_view(r) =~= strings_view(*v));
    r
}

pub fn copy_opt_strings(o: &Option<Vec<String>>) -> (r: Option<Vec<String>>)
    ensures
        opt_strings_view(r) == opt_strings_view(*o),
{
    match o {
        Some(v) => Some(copy_strings(v)),
        None => None,
    }
}

impl BreachName {
    /// The record handed to callers, with `country_code` as its country.
    pub fn to_breach_info(&self, country_code: String) -> (r: BreachInfo)
        ensures
            r@ == (BreachInfoView { record: self@, country_code: country_code@ }),
    {
        BreachInfo {
            name: self.name.clone(),
            title: self.title.clone(),
            description: self.description.clone(),
            domain: copy_opt_string(&self.domain),
            breach_date: copy_opt_string(&self.breach_date),
            added_date: copy_opt_string(&self.added_date),
            modified_date: copy_opt_string(&self.modified_date),
            pwn_count: self.pwn_count,
            data_classes: copy_opt_strings(&self.data_classes),
            logo_path: self.logo_path.clone(),
            is_verified: self.is_verified,
            is_fabricated: self.is_fabricated,
            is_sensitive: self.is_sensitive,
            is_retired: self.is_retired,
            is_spamlist: self.is_spamlist,
            is_malicious_verified: self.is_malicious_verified,
            is_subscription_free: self.is_subscription_free,
            country_code,
        }
    }

    /// A field-by-field copy.
    pub fn duplicate(&self) -> (r: BreachName)
        ensures
            r@ == self@,
    {
        BreachName {
            name: self.name.clone(),
            title: self.title.clone(),
            description: self.description.clone(),
            domain: copy_opt_string(&self.domain),
            breach_date: copy_opt_string(&self.breach_date),
            added_date: copy_opt_string(&self.added_date),
            modified_date: copy_opt_string(&self.modified_date),
            pwn_count: self.pwn_count,
            data_classes: copy_opt_strings(&self.data_classes),
            logo_path: self.logo_path.clone(),
            is_verified: self.is_verified,
            is_fabricated: self.is_fabricated,
            is_sensitive: self.is_sensitive,
            is_retired: self.is_retired,
            is_spamlist: self.is_spamlist,
            is_malicious_verified: self.is_malicious_verified,
            is_subscription_free: self.is_subscription_free,
        }
    }
}

impl BreachInfo {
    /// A field-by-field copy.
    pub fn duplicate(&self) -> (r: BreachInfo)
        ensures
            r@ == self@,
    {
        BreachInfo {
            name: self.name.clone(),
            title: self.title.clone(),
            description: self.description.clone(),
            domain: copy_opt_string(&self.domain),
            breach_date: copy_opt_string(&self.breach_date),
            added_date: copy_opt_string(&self.added_date),
            modified_date: copy_opt_string(&self.modified_date),
            pwn_count: self.pwn_count,
            data_classes: copy_opt_strings(&self.data_classes),
            logo_path: self.logo_path.clone(),
            is_verified: self.is_verified,
            is_fabricated: self.is_fabricated,
            is_sensitive: self.is_sensitive,
            is_retired: self.is_retired,
            is_spamlist: self.is_spamlist,
            is_malicious_verified: self.is_malicious_verified,
            is_subscription_free: self.is_subscription_free,
            country_code: self.country_code.clone(),
        }
    }
}

/// Copies a list of breach records, in order.
pub fn copy_breach_infos(v: &Vec<BreachInfo>) -> (r: Vec<BreachInfo>)
    ensures
        infos_view(r@) == infos_view(v@),
{
    let mut r: Vec<BreachInfo> = Vec::new();
    let mut i: usize = 0;
    while i < v.len()
        invariant
            i <= v@.len(),
            r@.len() == i,
            forall|j: int| 0 <= j < i ==> (#[trigger] r@[j])@ == v@[j]@,
        decreases v@.len() - i,
    {
        r.push(v[i].duplicate());
        i = i + 1;
    }
    assert(infos_view(r@) =~= infos_view(v@));
    r
}

/// Turns provider records into caller records: the `i`-th gets the `i`-th
/// country code, and the order is kept.
pub fn build_breach_info(info: Vec<BreachName>, country_codes: Vec<String>) -> (r: Vec<BreachInfo>)
    requires
        country_codes@.len() == info@.len(),
    ensures
        r@.len() == info@.len(),
        forall|i: int|
            0 <= i < info@.len() ==> (#[trigger] r@[i])@ == (BreachInfoView {
                record: info@[i]@,
                country_code: country_codes@[i]@,
            }),
{
    let mut r: Vec<BreachInfo> = Vec::new();
    let mut i: usize = 0;
    while i < info.len()
        invariant
            i <= info@.len(),
            country_codes@.len() == info@.len(),
            r@.len() == i,
            forall|j: int|
                0 <= j < i ==> (#[trigger] r@[j])@ == (BreachInfoView {
                    record: info@[j]@,
                    country_code: country_codes@[j]@,
                }),
        decreases info@.len() - i,
    {
        r.push(info[i].to_breach_info(country_codes[i].clone()));
        i = i + 1;
    }
    r
}

} // verus!
