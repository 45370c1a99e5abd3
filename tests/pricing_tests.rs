use noscha::pricing::{default_pricing, PeriodPricing, Plan, PriceEntry, PricingConfig, ServiceType};

#[test]
fn test_service_price() {
    assert_eq!(Plan::OneDay.service_price(&ServiceType::Subdomain), 500);
    assert_eq!(Plan::OneDay.service_price(&ServiceType::EmailForwarding), 1500);
    assert_eq!(Plan::OneDay.service_price(&ServiceType::Nip05), 200);
    assert_eq!(Plan::ThirtyDays.service_price(&ServiceType::Subdomain), 2000);
    assert_eq!(Plan::ThirtyDays.service_price(&ServiceType::EmailForwarding), 5000);
    assert_eq!(Plan::ThirtyDays.service_price(&ServiceType::Nip05), 1000);
    assert_eq!(Plan::OneYear.service_price(&ServiceType::Subdomain), 15000);
    assert_eq!(Plan::OneYear.service_price(&ServiceType::EmailForwarding), 40000);
    assert_eq!(Plan::OneYear.service_price(&ServiceType::Nip05), 8000);
}

#[test]
fn test_bundle_price() {
    assert_eq!(Plan::OneDay.bundle_price(), 1800);
    assert_eq!(Plan::SevenDays.bundle_price(), 3300);
    assert_eq!(Plan::ThirtyDays.bundle_price(), 6500);
    assert_eq!(Plan::NinetyDays.bundle_price(), 16000);
    assert_eq!(Plan::OneYear.bundle_price(), 50000);
}

#[test]
fn test_calculate_total_single_service() {
    let services = vec![ServiceType::Subdomain];
    assert_eq!(Plan::calculate_total(&Plan::ThirtyDays, &services), 2000);
}

#[test]
fn test_calculate_total_two_services() {
    let services = vec![ServiceType::Subdomain, ServiceType::Nip05];
    assert_eq!(Plan::calculate_total(&Plan::ThirtyDays, &services), 3000);
}

#[test]
fn test_calculate_total_bundle() {
    let services = vec![ServiceType::Subdomain, ServiceType::EmailForwarding, ServiceType::Nip05];
    assert_eq!(Plan::calculate_total(&Plan::ThirtyDays, &services), 6500);
    // Bundle price (6500) < sum of individual (2000+5000+1000=8000)
}

#[test]
fn test_plan_duration_days() {
    assert_eq!(Plan::OneDay.duration_days(), 1);
    assert_eq!(Plan::SevenDays.duration_days(), 7);
    assert_eq!(Plan::ThirtyDays.duration_days(), 30);
    assert_eq!(Plan::NinetyDays.duration_days(), 90);
    assert_eq!(Plan::OneYear.duration_days(), 365);
}

#[test]
fn test_pricing_config_default() {
    let config = default_pricing();
    assert_eq!(config.get("30d").unwrap().get("bundle").unwrap(), 6500);
    assert_eq!(config.get("90d").unwrap().get("bundle").unwrap(), 16000);
    assert_eq!(config.get("365d").unwrap().get("bundle").unwrap(), 50000);
}

fn table(period: &str, entries: &[(&str, u64)]) -> PricingConfig {
    PricingConfig {
        periods: vec![PeriodPricing {
            period: period.to_string(),
            prices: entries
                .iter()
                .map(|(k, v)| PriceEntry { key: k.to_string(), sats: *v })
                .collect(),
        }],
    }
}

#[test]
fn total_of_two_services_is_the_sum_of_each() {
    for plan in [Plan::OneDay, Plan::SevenDays, Plan::ThirtyDays, Plan::NinetyDays, Plan::OneYear] {
        let pairs = [
            (ServiceType::Subdomain, ServiceType::EmailForwarding),
            (ServiceType::Subdomain, ServiceType::Nip05),
            (ServiceType::EmailForwarding, ServiceType::Nip05),
        ];
        for (a, b) in pairs {
            let both = Plan::calculate_total(&plan, &[a, b]);
            assert_eq!(both, plan.service_price(&a) + plan.service_price(&b));
            assert_eq!(Plan::calculate_total(&plan, &[a]), plan.service_price(&a));
        }
        let all = [ServiceType::Subdomain, ServiceType::EmailForwarding, ServiceType::Nip05];
        let sum: u64 = all.iter().map(|s| plan.service_price(s)).sum();
        assert_eq!(Plan::calculate_total(&plan, &all), plan.bundle_price());
        assert!(plan.bundle_price() < sum);
    }
}

#[test]
fn repeated_services_count_once() {
    let services = vec![ServiceType::Nip05, ServiceType::Nip05, ServiceType::Subdomain];
    assert_eq!(Plan::calculate_total(&Plan::SevenDays, &services), 1500);
    let none: Vec<ServiceType> = vec![];
    assert_eq!(Plan::calculate_total(&Plan::SevenDays, &none), 0);
}

#[test]
fn dynamic_price_prefers_table_and_falls_back_per_cell() {
    let config = table("30d", &[("subdomain", 1234), ("bundle", 4000)]);
    assert_eq!(Plan::ThirtyDays.service_price_dynamic(&ServiceType::Subdomain, &config), 1234);
    assert_eq!(Plan::ThirtyDays.service_price_dynamic(&ServiceType::EmailForwarding, &config), 5000);
    assert_eq!(Plan::OneDay.service_price_dynamic(&ServiceType::Subdomain, &config), 500);
    assert_eq!(Plan::ThirtyDays.bundle_price_dynamic(&config), 4000);
    assert_eq!(Plan::NinetyDays.bundle_price_dynamic(&config), 16000);
    let all = [ServiceType::Subdomain, ServiceType::EmailForwarding, ServiceType::Nip05];
    assert_eq!(Plan::calculate_total_dynamic(&Plan::ThirtyDays, &all, &config), 4000);
    let two = [ServiceType::Subdomain, ServiceType::Nip05];
    assert_eq!(Plan::calculate_total_dynamic(&Plan::ThirtyDays, &two, &config), 2234);
}

#[test]
fn dynamic_total_with_default_table_matches_matrix() {
    let config = default_pricing();
    let two = [ServiceType::EmailForwarding, ServiceType::Nip05];
    assert_eq!(Plan::calculate_total_dynamic(&Plan::NinetyDays, &two, &config), 14500);
    assert_eq!(Plan::calculate_total(&Plan::NinetyDays, &two), 14500);
}

#[test]
fn checked_total_reports_overflow() {
    let config = table("1d", &[("subdomain", u64::MAX), ("email", 1)]);
    let two = [ServiceType::Subdomain, ServiceType::EmailForwarding];
    assert_eq!(Plan::checked_total_dynamic(&Plan::OneDay, &two, &config), None);
    let one = [ServiceType::Subdomain];
    assert_eq!(Plan::checked_total_dynamic(&Plan::OneDay, &one, &config), Some(u64::MAX));
}

#[test]
fn period_keys_and_durations() {
    assert_eq!(Plan::OneDay.period_key(), "1d");
    assert_eq!(Plan::OneYear.period_key(), "365d");
    assert_eq!(ServiceType::EmailForwarding.price_key(), "email");
    assert_eq!(Plan::ThirtyDays.duration_ms(), 30 * 86_400_000);
}

#[test]
fn first_entry_of_a_key_counts() {
    let mut config = table("7d", &[("nip05", 10), ("nip05", 20)]);
    config.periods.push(PeriodPricing { period: "7d".to_string(), prices: vec![] });
    assert_eq!(config.get("7d").unwrap().get("nip05"), Some(10));
    assert_eq!(config.cell("7d", "bundle"), None);
    assert!(config.get("5m").is_none());
}
