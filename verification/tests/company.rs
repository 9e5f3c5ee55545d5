use story::binary64::Binary64;
use story::company::{random_companies, random_company, Company};

fn quote(value: f64) -> Binary64 {
    Binary64::from_bits(value.to_bits())
}

fn value(quote: Binary64) -> f64 {
    f64::from_bits(quote.to_bits())
}

fn acme(last_done: f64, prev_close: f64) -> Company {
    Company::new("Acme and Sons".to_string(), "Logistics".to_string(), quote(last_done), quote(prev_close))
}

#[test]
fn new_keeps_labels_and_quotes() {
    let company = acme(110.0, 100.0);
    assert_eq!(company.name, "Acme and Sons");
    assert_eq!(company.industry, "Logistics");
    assert_eq!(value(company.last_done), 110.0);
    assert_eq!(value(company.prev_close), 100.0);
}

#[test]
fn clone_is_a_snapshot() {
    let mut company = acme(110.0, 100.0);
    let snapshot = company.clone();
    assert_eq!(snapshot, company);
    company.random_update(&|_| quote(90.0));
    assert_eq!(value(company.last_done), 90.0);
    assert_eq!(value(snapshot.last_done), 110.0);
    assert_eq!(snapshot.name, company.name);
}

#[test]
fn random_update_stores_what_was_drawn() {
    let mut company = acme(110.0, 100.0);
    company.random_update(&|prev_close| quote(value(prev_close) * (1.0 + 0.05)));
    assert_eq!(value(company.last_done), 105.0);
    assert_eq!(value(company.prev_close), 100.0);
    assert_eq!(company.name, "Acme and Sons");
    assert_eq!(company.industry, "Logistics");
}

#[test]
fn random_update_hands_the_previous_close_to_the_draw() {
    let mut company = acme(1.0, 250.0);
    company.random_update(&|prev_close| {
        assert_eq!(value(prev_close), 250.0);
        prev_close
    });
    assert_eq!(value(company.last_done), 250.0);
}

#[test]
fn random_update_is_not_idempotent() {
    let mut company = acme(100.0, 100.0);
    company.random_update(&|prev_close| quote(value(prev_close) * 0.8));
    assert_eq!(value(company.last_done), 80.0);
    company.random_update(&|prev_close| quote(value(prev_close) * 1.125));
    assert_eq!(value(company.last_done), 112.5);
    assert_eq!(value(company.prev_close), 100.0);
}

#[test]
fn random_update_stays_within_a_fifth_of_the_previous_close() {
    for step in 0..400 {
        let u = -0.2 + (step as f64) * 0.001;
        let mut company = acme(0.0, 100.0);
        company.random_update(&|prev_close| quote(value(prev_close) * (1.0 + u)));
        let last_done = value(company.last_done);
        assert!(last_done >= 100.0 * 0.8 - 1e-9, "{}", last_done);
        assert!(last_done < 100.0 * 1.2, "{}", last_done);
        assert_eq!(value(company.prev_close), 100.0);
    }
}

#[test]
fn random_company_carries_the_quotes() {
    let company = random_company(quote(12.5), quote(-1.25));
    assert_eq!(value(company.last_done), 12.5);
    assert_eq!(value(company.prev_close), -1.25);
}

#[test]
fn random_company_has_labels() {
    for _ in 0..50 {
        let company = random_company(quote(1.0), quote(1.0));
        assert!(!company.name.is_empty());
        assert!(!company.industry.is_empty());
    }
}

#[test]
fn random_companies_makes_as_many_as_asked_for() {
    assert_eq!(random_companies(0, &|| (quote(1.0), quote(2.0))).len(), 0);
    assert_eq!(random_companies(1, &|| (quote(1.0), quote(2.0))).len(), 1);
    assert_eq!(random_companies(1000, &|| (quote(1.0), quote(2.0))).len(), 1000);
}

#[test]
fn random_companies_draws_quotes_for_each() {
    let drawn = std::cell::Cell::new(0u32);
    let companies = random_companies(5, &|| {
        drawn.set(drawn.get() + 1);
        (quote(drawn.get() as f64), quote(-(drawn.get() as f64)))
    });
    assert_eq!(drawn.get(), 5);
    for (i, company) in companies.iter().enumerate() {
        assert_eq!(value(company.last_done), (i + 1) as f64);
        assert_eq!(value(company.prev_close), -((i + 1) as f64));
        assert!(!company.name.is_empty());
        assert!(!company.industry.is_empty());
    }
}

#[test]
fn random_labels_vary() {
    let companies = random_companies(200, &|| (quote(0.0), quote(0.0)));
    let first = &companies[0].name;
    assert!(companies.iter().any(|company| &company.name != first));
    let first = &companies[0].industry;
    assert!(companies.iter().any(|company| &company.industry != first));
}
