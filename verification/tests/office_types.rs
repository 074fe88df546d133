use unity_offices::office::OfficeType;

#[test]
fn display_names_are_the_documented_ones() {
    assert_eq!(OfficeType::Orchestrator.to_string(), "Orchestrator");
    assert_eq!(OfficeType::Memory.to_string(), "Memory Graph");
    assert_eq!(OfficeType::IntellectualProperty.to_string(), "IP Office");
    assert_eq!(OfficeType::EmergencyResponse.to_string(), "Emergency Response");
}

#[test]
fn default_sizes_follow_the_role() {
    assert_eq!(OfficeType::Orchestrator.get_default_size(), (1400, 900));
    assert_eq!(OfficeType::Memory.get_default_size(), (1200, 800));
    assert_eq!(OfficeType::TradingOffice.get_default_size(), (1600, 900));
    assert_eq!(OfficeType::CryptoOffice.get_default_size(), (1600, 900));
    assert_eq!(OfficeType::QuantumComputing.get_default_size(), (1500, 850));
    assert_eq!(OfficeType::Security.get_default_size(), (1024, 768));
    assert_eq!(OfficeType::LifeCoach.get_default_size(), (1024, 768));
}

#[test]
fn urls_are_derived_from_the_role() {
    assert_eq!(OfficeType::Orchestrator.get_url(), "http://localhost:1420/");
    assert_eq!(OfficeType::Memory.get_url(), "http://localhost:1420/memory");
    assert_eq!(OfficeType::Security.get_url(), "http://localhost:1420/security");
    assert_eq!(
        OfficeType::TradingOffice.get_url(),
        "http://localhost:1420/office/tradingoffice"
    );
    assert_eq!(
        OfficeType::DevOpsEngineer.get_url(),
        "http://localhost:1420/office/devopsengineer"
    );
}

#[test]
fn every_role_is_found_by_its_identifier() {
    let all = OfficeType::all();
    assert_eq!(all.len(), 42);
    for t in all {
        assert_eq!(OfficeType::from_name(t.name()), Some(t));
    }
    assert_eq!(OfficeType::from_name("orchestrator"), None);
    assert_eq!(OfficeType::from_name(""), None);
    assert_eq!(OfficeType::from_name("Trading Office"), None);
}
