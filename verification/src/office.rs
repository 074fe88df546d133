//! The closed set of office roles: each role's display name, default window
//! size and the address its window content is loaded from.

use vstd::prelude::*;
use vstd::string::*;

use crate::text::{lower, to_lowercase};

verus! {

/// A role that an office window can be bound to.
#[derive(Debug, Clone, Copy, PartialEq, Eq, Hash, Structural)]
pub enum OfficeType {
    // Core offices
    Orchestrator,
    Memory,
    Security,
    // Financial offices
    TradingOffice,
    CryptoOffice,
    TaxAdvisor,
    FinancialAdvisor,
    BankingOffice,
    // Legal and compliance
    LegalOffice,
    ComplianceOfficer,
    ContractAnalyst,
    IntellectualProperty,
    // Travel and lifestyle
    TravelPlanner,
    RestaurantConcierge,
    EventCoordinator,
    PersonalShopper,
    // Health and wellness
    PhysicalTrainer,
    Nutritionist,
    SleepCoach,
    Psychologist,
    MedicalAdvisor,
    // Creative and media
    ContentCreator,
    VideoEditor,
    GraphicDesigner,
    MusicProducer,
    // Technical
    DevOpsEngineer,
    DataAnalyst,
    SecurityAnalyst,
    CloudArchitect,
    // Research and education
    ResearchAnalyst,
    EducationAdvisor,
    LanguageTutor,
    SkillCoach,
    // Spiritual and personal
    TarotReader,
    Astrologer,
    MeditationGuide,
    LifeCoach,
    // Home and kitchen
    KitchenManager,
    HomeAutomation,
    MaintenanceScheduler,
    // Special operations
    QuantumComputing,
    EmergencyResponse,
}

/// Address under which every office's window content is served.
pub open spec fn base_url() -> Seq<char> {
    "http://localhost:1420"@
}

/// Every role, in declaration order.
pub open spec fn all_office_types() -> Seq<OfficeType> {
    seq![
        OfficeType::Orchestrator,
        OfficeType::Memory,
        OfficeType::Security,
        OfficeType::TradingOffice,
        OfficeType::CryptoOffice,
        OfficeType::TaxAdvisor,
        OfficeType::FinancialAdvisor,
        OfficeType::BankingOffice,
        OfficeType::LegalOffice,
        OfficeType::ComplianceOfficer,
        OfficeType::ContractAnalyst,
        OfficeType::IntellectualProperty,
        OfficeType::TravelPlanner,
        OfficeType::RestaurantConcierge,
        OfficeType::EventCoordinator,
        OfficeType::PersonalShopper,
        OfficeType::PhysicalTrainer,
        OfficeType::Nutritionist,
        OfficeType::SleepCoach,
        OfficeType::Psychologist,
        OfficeType::MedicalAdvisor,
        OfficeType::ContentCreator,
        OfficeType::VideoEditor,
        OfficeType::GraphicDesigner,
        OfficeType::MusicProducer,
        OfficeType::DevOpsEngineer,
        OfficeType::DataAnalyst,
        OfficeType::SecurityAnalyst,
        OfficeType::CloudArchitect,
        OfficeType::ResearchAnalyst,
        OfficeType::EducationAdvisor,
        OfficeType::LanguageTutor,
        OfficeType::SkillCoach,
        OfficeType::TarotReader,
        OfficeType::Astrologer,
        OfficeType::MeditationGuide,
        OfficeType::LifeCoach,
        OfficeType::KitchenManager,
        OfficeType::HomeAutomation,
        OfficeType::MaintenanceScheduler,
        OfficeType::QuantumComputing,
        OfficeType::EmergencyResponse,
    ]
}

/// The role whose identifier is `name`, if there is one.
pub open spec fn office_type_named(name: Seq<char>) -> Option<OfficeType> {
    if exists|t: OfficeType| t.identifier() == name {
        Some(choose|t: OfficeType| t.identifier() == name)
    } else {
        None
    }
}

impl OfficeType {
    /// The name shown to the user, as a sequence of characters.
    pub open spec fn display_name(self) -> Seq<char> {
        match self {
            Self::Orchestrator => "Orchestrator"@,
            Self::Memory => "Memory Graph"@,
            Self::Security => "Security Office"@,
            Self::TradingOffice => "Trading Office"@,
            Self::CryptoOffice => "Crypto Office"@,
            Self::TaxAdvisor => "Tax Advisor"@,
            Self::FinancialAdvisor => "Financial Advisor"@,
            Self::BankingOffice => "Banking Office"@,
            Self::LegalOffice => "Legal Office"@,
            Self::ComplianceOfficer => "Compliance Officer"@,
            Self::ContractAnalyst => "Contract Analyst"@,
            Self::IntellectualProperty => "IP Office"@,
            Self::TravelPlanner => "Travel Planner"@,
            Self::RestaurantConcierge => "Restaurant Concierge"@,
            Self::EventCoordinator => "Event Coordinator"@,
            Self::PersonalShopper => "Personal Shopper"@,
            Self::PhysicalTrainer => "Physical Trainer"@,
            Self::Nutritionist => "Nutritionist"@,
            Self::SleepCoach => "Sleep Coach"@,
            Self::Psychologist => "Psychologist"@,
            Self::MedicalAdvisor => "Medical Advisor"@,
            Self::ContentCreator => "Content Creator"@,
            Self::VideoEditor => "Video Editor"@,
            Self::GraphicDesigner => "Graphic Designer"@,
            Self::MusicProducer => "Music Producer"@,
            Self::DevOpsEngineer => "DevOps Engineer"@,
            Self::DataAnalyst => "Data Analyst"@,
            Self::SecurityAnalyst => "Security Analyst"@,
            Self::CloudArchitect => "Cloud Architect"@,
            Self::ResearchAnalyst => "Research Analyst"@,
            Self::EducationAdvisor => "Education Advisor"@,
            Self::LanguageTutor => "Language Tutor"@,
            Self::SkillCoach => "Skill Coach"@,
            Self::TarotReader => "Tarot Reader"@,
            Self::Astrologer => "Astrologer"@,
            Self::MeditationGuide => "Meditation Guide"@,
            Self::LifeCoach => "Life Coach"@,
            Self::KitchenManager => "Kitchen Manager"@,
            Self::HomeAutomation => "Home Automation"@,
            Self::MaintenanceScheduler => "Maintenance Scheduler"@,
            Self::QuantumComputing => "Quantum Computing"@,
            Self::EmergencyResponse => "Emergency Response"@,
        }
    }

    /// The role's identifier: the name under which callers select it.
    pub open spec fn identifier(self) -> Seq<char> {
        match self {
            Self::Orchestrator => "Orchestrator"@,
            Self::Memory => "Memory"@,
            Self::Security => "Security"@,
            Self::TradingOffice => "TradingOffice"@,
            Self::CryptoOffice => "CryptoOffice"@,
            Self::TaxAdvisor => "TaxAdvisor"@,
            Self::FinancialAdvisor => "FinancialAdvisor"@,
            Self::BankingOffice => "BankingOffice"@,
            Self::LegalOffice => "LegalOffice"@,
            Self::ComplianceOfficer => "ComplianceOfficer"@,
            Self::ContractAnalyst => "ContractAnalyst"@,
            Self::IntellectualProperty => "IntellectualProperty"@,
            Self::TravelPlanner => "TravelPlanner"@,
            Self::RestaurantConcierge => "RestaurantConcierge"@,
            Self::EventCoordinator => "EventCoordinator"@,
            Self::PersonalShopper => "PersonalShopper"@,
            Self::PhysicalTrainer => "PhysicalTrainer"@,
            Self::Nutritionist => "Nutritionist"@,
            Self::SleepCoach => "SleepCoach"@,
            Self::Psychologist => "Psychologist"@,
            Self::MedicalAdvisor => "MedicalAdvisor"@,
            Self::ContentCreator => "ContentCreator"@,
            Self::VideoEditor => "VideoEditor"@,
            Self::GraphicDesigner => "GraphicDesigner"@,
            Self::MusicProducer => "MusicProducer"@,
            Self::DevOpsEngineer => "DevOpsEngineer"@,
            Self::DataAnalyst => "DataAnalyst"@,
            Self::SecurityAnalyst => "SecurityAnalyst"@,
            Self::CloudArchitect => "CloudArchitect"@,
            Self::ResearchAnalyst => "ResearchAnalyst"@,
            Self::EducationAdvisor => "EducationAdvisor"@,
            Self::LanguageTutor => "LanguageTutor"@,
            Self::SkillCoach => "SkillCoach"@,
            Self::TarotReader => "TarotReader"@,
            Self::Astrologer => "Astrologer"@,
            Self::MeditationGuide => "MeditationGuide"@,
            Self::LifeCoach => "LifeCoach"@,
            Self::KitchenManager => "KitchenManager"@,
            Self::HomeAutomation => "HomeAutomation"@,
            Self::MaintenanceScheduler => "MaintenanceScheduler"@,
            Self::QuantumComputing => "QuantumComputing"@,
            Self::EmergencyResponse => "EmergencyResponse"@,
        }
    }

    /// Width and height, in pixels, that a window of this role opens with.
    pub open spec fn default_size(self) -> (u32, u32) {
        match self {
            Self::Orchestrator => (1400, 900),
            Self::Memory => (1200, 800),
            Self::TradingOffice | Self::CryptoOffice => (1600, 900),
            Self::QuantumComputing => (1500, 850),
            _ => (1024, 768),
        }
    }

    /// The address that a window of this role loads: three roles have a page
    /// of their own, every other role is served under `/office/` by its
    /// lower-cased identifier.
    pub open spec fn locator(self) -> Seq<char> {
        match self {
            Self::Orchestrator => base_url() + "/"@,
            Self::Memory => base_url() + "/memory"@,
            Self::Security => base_url() + "/security"@,
            _ => base_url() + "/office/"@ + lower(self.identifier()),
        }
    }

    /// The name shown to the user.
    pub fn to_string(&self) -> (name: String)
        ensures
            name@ == self.display_name(),
    {
        match self {
            Self::Orchestrator => "Orchestrator".to_string(),
            Self::Memory => "Memory Graph".to_string(),
            Self::Security => "Security Office".to_string(),
            Self::TradingOffice => "Trading Office".to_string(),
            Self::CryptoOffice => "Crypto Office".to_string(),
            Self::TaxAdvisor => "Tax Advisor".to_string(),
            Self::FinancialAdvisor => "Financial Advisor".to_string(),
            Self::BankingOffice => "Banking Office".to_string(),
            Self::LegalOffice => "Legal Office".to_string(),
            Self::ComplianceOfficer => "Compliance Officer".to_string(),
            Self::ContractAnalyst => "Contract Analyst".to_string(),
            Self::IntellectualProperty => "IP Office".to_string(),
            Self::TravelPlanner => "Travel Planner".to_string(),
            Self::RestaurantConcierge => "Restaurant Concierge".to_string(),
            Self::EventCoordinator => "Event Coordinator".to_string(),
            Self::PersonalShopper => "Personal Shopper".to_string(),
            Self::PhysicalTrainer => "Physical Trainer".to_string(),
            Self::Nutritionist => "Nutritionist".to_string(),
            Self::SleepCoach => "Sleep Coach".to_string(),
            Self::Psychologist => "Psychologist".to_string(),
            Self::MedicalAdvisor => "Medical Advisor".to_string(),
            Self::ContentCreator => "Content Creator".to_string(),
            Self::VideoEditor => "Video Editor".to_string(),
            Self::GraphicDesigner => "Graphic Designer".to_string(),
            Self::MusicProducer => "Music Producer".to_string(),
            Self::DevOpsEngineer => "DevOps Engineer".to_string(),
            Self::DataAnalyst => "Data Analyst".to_string(),
            Self::SecurityAnalyst => "Security Analyst".to_string(),
            Self::CloudArchitect => "Cloud Architect".to_string(),
            Self::ResearchAnalyst => "Research Analyst".to_string(),
            Self::EducationAdvisor => "Education Advisor".to_string(),
            Self::LanguageTutor => "Language Tutor".to_string(),
            Self::SkillCoach => "Skill Coach".to_string(),
            Self::TarotReader => "Tarot Reader".to_string(),
            Self::Astrologer => "Astrologer".to_string(),
            Self::MeditationGuide => "Meditation Guide".to_string(),
            Self::LifeCoach => "Life Coach".to_string(),
            Self::KitchenManager => "Kitchen Manager".to_string(),
            Self::HomeAutomation => "Home Automation".to_string(),
            Self::MaintenanceScheduler => "Maintenance Scheduler".to_string(),
            Self::QuantumComputing => "Quantum Computing".to_string(),
            Self::EmergencyResponse => "Emergency Response".to_string(),
        }
    }

    /// The role's identifier.
    pub fn name(&self) -> (name: &'static str)
        ensures
            name@ == self.identifier(),
    {
        match self {
            Self::Orchestrator => "Orchestrator",
            Self::Memory => "Memory",
            Self::Security => "Security",
            Self::TradingOffice => "TradingOffice",
            Self::CryptoOffice => "CryptoOffice",
            Self::TaxAdvisor => "TaxAdvisor",
            Self::FinancialAdvisor => "FinancialAdvisor",
            Self::BankingOffice => "BankingOffice",
            Self::LegalOffice => "LegalOffice",
            Self::ComplianceOfficer => "ComplianceOfficer",
            Self::ContractAnalyst => "ContractAnalyst",
            Self::IntellectualProperty => "IntellectualProperty",
            Self::TravelPlanner => "TravelPlanner",
            Self::RestaurantConcierge => "RestaurantConcierge",
            Self::EventCoordinator => "EventCoordinator",
            Self::PersonalShopper => "PersonalShopper",
            Self::PhysicalTrainer => "PhysicalTrainer",
            Self::Nutritionist => "Nutritionist",
            Self::SleepCoach => "SleepCoach",
            Self::Psychologist => "Psychologist",
            Self::MedicalAdvisor => "MedicalAdvisor",
            Self::ContentCreator => "ContentCreator",
            Self::VideoEditor => "VideoEditor",
            Self::GraphicDesigner => "GraphicDesigner",
            Self::MusicProducer => "MusicProducer",
            Self::DevOpsEngineer => "DevOpsEngineer",
            Self::DataAnalyst => "DataAnalyst",
            Self::SecurityAnalyst => "SecurityAnalyst",
            Self::CloudArchitect => "CloudArchitect",
            Self::ResearchAnalyst => "ResearchAnalyst",
            Self::EducationAdvisor => "EducationAdvisor",
            Self::LanguageTutor => "LanguageTutor",
            Self::SkillCoach => "SkillCoach",
            Self::TarotReader => "TarotReader",
            Self::Astrologer => "Astrologer",
            Self::MeditationGuide => "MeditationGuide",
            Self::LifeCoach => "LifeCoach",
            Self::KitchenManager => "KitchenManager",
            Self::HomeAutomation => "HomeAutomation",
            Self::MaintenanceScheduler => "MaintenanceScheduler",
            Self::QuantumComputing => "QuantumComputing",
            Self::EmergencyResponse => "EmergencyResponse",
        }
    }

    /// Width and height, in pixels, that a window of this role opens with.
    pub fn get_default_size(&self) -> (size: (u32, u32))
        ensures
            size == self.default_size(),
    {
        match self {
            Self::Orchestrator => (1400, 900),
            Self::Memory => (1200, 800),
            Self::TradingOffice | Self::CryptoOffice => (1600, 900),
            Self::QuantumComputing => (1500, 850),
            _ => (1024, 768),
        }
    }

    /// The address that a window of this role loads.
    pub fn get_url(&self) -> (url: String)
        ensures
            url@ == self.locator(),
    {
        let mut url = "http://localhost:1420".to_string();
        match self {
            Self::Orchestrator => url.append("/"),
            Self::Memory => url.append("/memory"),
            Self::Security => url.append("/security"),
            _ => {
                url.append("/office/");
                let path = to_lowercase(self.name());
                url.append(path.as_str());
            },
        }
        url
    }

    /// Every role, in declaration order.
    pub fn all() -> (types: Vec<OfficeType>)
        ensures
            types@ == all_office_types(),
    {
        let types = vec![
            OfficeType::Orchestrator,
            OfficeType::Memory,
            OfficeType::Security,
            OfficeType::TradingOffice,
            OfficeType::CryptoOffice,
            OfficeType::TaxAdvisor,
            OfficeType::FinancialAdvisor,
            OfficeType::BankingOffice,
            OfficeType::LegalOffice,
            OfficeType::ComplianceOfficer,
            OfficeType::ContractAnalyst,
            OfficeType::IntellectualProperty,
            OfficeType::TravelPlanner,
            OfficeType::RestaurantConcierge,
            OfficeType::EventCoordinator,
            OfficeType::PersonalShopper,
            OfficeType::PhysicalTrainer,
            OfficeType::Nutritionist,
            OfficeType::SleepCoach,
            OfficeType::Psychologist,
            OfficeType::MedicalAdvisor,
            OfficeType::ContentCreator,
            OfficeType::VideoEditor,
            OfficeType::GraphicDesigner,
            OfficeType::MusicProducer,
            OfficeType::DevOpsEngineer,
            OfficeType::DataAnalyst,
            OfficeType::SecurityAnalyst,
            OfficeType::CloudArchitect,
            OfficeType::ResearchAnalyst,
            OfficeType::EducationAdvisor,
            OfficeType::LanguageTutor,
            OfficeType::SkillCoach,
            OfficeType::TarotReader,
            OfficeType::Astrologer,
            OfficeType::MeditationGuide,
            OfficeType::LifeCoach,
            OfficeType::KitchenManager,
            OfficeType::HomeAutomation,
            OfficeType::MaintenanceScheduler,
            OfficeType::QuantumComputing,
            OfficeType::EmergencyResponse,
        ];
        assert(types@ =~= all_office_types());
        types
    }

    /// Finds the role that `name` identifies. The match is exact: case and
    /// surrounding white space count.
    pub fn from_name(name: &str) -> (found: Option<OfficeType>)
        ensures
            found == office_type_named(name@),
    {
        let wanted = name.to_owned();
        let types = Self::all();
        let mut i: usize = 0;
        while i < types.len()
            invariant
                i <= types.len(),
                types@ == all_office_types(),
                wanted@ == name@,
                forall|j: int| 0 <= j < i ==> types[j].identifier() != name@,
            decreases types.len() - i,
        {
            let candidate = types[i];
            if candidate.name().to_owned() == wanted {
                proof {
                    let chosen = choose|t: OfficeType| t.identifier() == name@;
                    lemma_identifier_injective(chosen, candidate);
                }
                return Some(candidate);
            }
            i += 1;
        }
        proof {
            assert forall|t: OfficeType| t.identifier() != name@ by {
                lemma_all_office_types_complete(t);
                let k = choose|k: int| 0 <= k < all_office_types().len() && all_office_types()[k] == t;
                assert(types[k].identifier() != name@);
            }
        }
        None
    }
}

/// Length, first and fifth character of a role's identifier: together they
/// tell every role from every other.
pub open spec fn identifier_mark(t: OfficeType) -> (nat, char, char) {
    match t {
        OfficeType::Orchestrator => (12, 'O', 'e'),
        OfficeType::Memory => (6, 'M', 'r'),
        OfficeType::Security => (8, 'S', 'r'),
        OfficeType::TradingOffice => (13, 'T', 'i'),
        OfficeType::CryptoOffice => (12, 'C', 't'),
        OfficeType::TaxAdvisor => (10, 'T', 'd'),
        OfficeType::FinancialAdvisor => (16, 'F', 'n'),
        OfficeType::BankingOffice => (13, 'B', 'i'),
        OfficeType::LegalOffice => (11, 'L', 'l'),
        OfficeType::ComplianceOfficer => (17, 'C', 'l'),
        OfficeType::ContractAnalyst => (15, 'C', 'r'),
        OfficeType::IntellectualProperty => (20, 'I', 'l'),
        OfficeType::TravelPlanner => (13, 'T', 'e'),
        OfficeType::RestaurantConcierge => (19, 'R', 'a'),
        OfficeType::EventCoordinator => (16, 'E', 't'),
        OfficeType::PersonalShopper => (15, 'P', 'o'),
        OfficeType::PhysicalTrainer => (15, 'P', 'i'),
        OfficeType::Nutritionist => (12, 'N', 'i'),
        OfficeType::SleepCoach => (10, 'S', 'p'),
        OfficeType::Psychologist => (12, 'P', 'h'),
        OfficeType::MedicalAdvisor => (14, 'M', 'c'),
        OfficeType::ContentCreator => (14, 'C', 'e'),
        OfficeType::VideoEditor => (11, 'V', 'o'),
        OfficeType::GraphicDesigner => (15, 'G', 'h'),
        OfficeType::MusicProducer => (13, 'M', 'c'),
        OfficeType::DevOpsEngineer => (14, 'D', 'p'),
        OfficeType::DataAnalyst => (11, 'D', 'A'),
        OfficeType::SecurityAnalyst => (15, 'S', 'r'),
        OfficeType::CloudArchitect => (14, 'C', 'd'),
        OfficeType::ResearchAnalyst => (15, 'R', 'a'),
        OfficeType::EducationAdvisor => (16, 'E', 'a'),
        OfficeType::LanguageTutor => (13, 'L', 'u'),
        OfficeType::SkillCoach => (10, 'S', 'l'),
        OfficeType::TarotReader => (11, 'T', 't'),
        OfficeType::Astrologer => (10, 'A', 'o'),
        OfficeType::MeditationGuide => (15, 'M', 't'),
        OfficeType::LifeCoach => (9, 'L', 'C'),
        OfficeType::KitchenManager => (14, 'K', 'h'),
        OfficeType::HomeAutomation => (14, 'H', 'A'),
        OfficeType::MaintenanceScheduler => (20, 'M', 't'),
        OfficeType::QuantumComputing => (16, 'Q', 't'),
        OfficeType::EmergencyResponse => (17, 'E', 'g'),
    }
}

/// `identifier_mark` reads its three values off the identifier.
pub proof fn lemma_identifier_mark(t: OfficeType)
    ensures
        identifier_mark(t) == (t.identifier().len(), t.identifier()[0], t.identifier()[4]),
{
    match t {
        OfficeType::Orchestrator => {
            reveal_strlit("Orchestrator");
            assert("Orchestrator"@.len() == 12 && "Orchestrator"@[0] == 'O' && "Orchestrator"@[4] == 'e');
        },
        OfficeType::Memory => {
            reveal_strlit("Memory");
            assert("Memory"@.len() == 6 && "Memory"@[0] == 'M' && "Memory"@[4] == 'r');
        },
        OfficeType::Security => {
            reveal_strlit("Security");
            assert("Security"@.len() == 8 && "Security"@[0] == 'S' && "Security"@[4] == 'r');
        },
        OfficeType::TradingOffice => {
            reveal_strlit("TradingOffice");
            assert("TradingOffice"@.len() == 13 && "TradingOffice"@[0] == 'T' && "TradingOffice"@[4] == 'i');
        },
        OfficeType::CryptoOffice => {
            reveal_strlit("CryptoOffice");
            assert("CryptoOffice"@.len() == 12 && "CryptoOffice"@[0] == 'C' && "CryptoOffice"@[4] == 't');
        },
        OfficeType::TaxAdvisor => {
            reveal_strlit("TaxAdvisor");
            assert("TaxAdvisor"@.len() == 10 && "TaxAdvisor"@[0] == 'T' && "TaxAdvisor"@[4] == 'd');
        },
        OfficeType::FinancialAdvisor => {
            reveal_strlit("FinancialAdvisor");
            assert("FinancialAdvisor"@.len() == 16 && "FinancialAdvisor"@[0] == 'F' && "FinancialAdvisor"@[4] == 'n');
        },
        OfficeType::BankingOffice => {
            reveal_strlit("BankingOffice");
            assert("BankingOffice"@.len() == 13 && "BankingOffice"@[0] == 'B' && "BankingOffice"@[4] == 'i');
        },
        OfficeType::LegalOffice => {
            reveal_strlit("LegalOffice");
            assert("LegalOffice"@.len() == 11 && "LegalOffice"@[0] == 'L' && "LegalOffice"@[4] == 'l');
        },
        OfficeType::ComplianceOfficer => {
            reveal_strlit("ComplianceOfficer");
            assert("ComplianceOfficer"@.len() == 17 && "ComplianceOfficer"@[0] == 'C' && "ComplianceOfficer"@[4] == 'l');
        },
        OfficeType::ContractAnalyst => {
            reveal_strlit("ContractAnalyst");
            assert("ContractAnalyst"@.len() == 15 && "ContractAnalyst"@[0] == 'C' && "ContractAnalyst"@[4] == 'r');
        },
        OfficeType::IntellectualProperty => {
            reveal_strlit("IntellectualProperty");
            assert("IntellectualProperty"@.len() == 20 && "IntellectualProperty"@[0] == 'I' && "IntellectualProperty"@[4] == 'l');
        },
        OfficeType::TravelPlanner => {
            reveal_strlit("TravelPlanner");
            assert("TravelPlanner"@.len() == 13 && "TravelPlanner"@[0] == 'T' && "TravelPlanner"@[4] == 'e');
        },
        OfficeType::RestaurantConcierge => {
            reveal_strlit("RestaurantConcierge");
            assert("RestaurantConcierge"@.len() == 19 && "RestaurantConcierge"@[0] == 'R' && "RestaurantConcierge"@[4] == 'a');
        },
        OfficeType::EventCoordinator => {
            reveal_strlit("EventCoordinator");
            assert("EventCoordinator"@.len() == 16 && "EventCoordinator"@[0] == 'E' && "EventCoordinator"@[4] == 't');
        },
        OfficeType::PersonalShopper => {
            reveal_strlit("PersonalShopper");
            assert("PersonalShopper"@.len() == 15 && "PersonalShopper"@[0] == 'P' && "PersonalShopper"@[4] == 'o');
        },
        OfficeType::PhysicalTrainer => {
            reveal_strlit("PhysicalTrainer");
            assert("PhysicalTrainer"@.len() == 15 && "PhysicalTrainer"@[0] == 'P' && "PhysicalTrainer"@[4] == 'i');
        },
        OfficeType::Nutritionist => {
            reveal_strlit("Nutritionist");
            assert("Nutritionist"@.len() == 12 && "Nutritionist"@[0] == 'N' && "Nutritionist"@[4] == 'i');
        },
        OfficeType::SleepCoach => {
            reveal_strlit("SleepCoach");
            assert("SleepCoach"@.len() == 10 && "SleepCoach"@[0] == 'S' && "SleepCoach"@[4] == 'p');
        },
        OfficeType::Psychologist => {
            reveal_strlit("Psychologist");
            assert("Psychologist"@.len() == 12 && "Psychologist"@[0] == 'P' && "Psychologist"@[4] == 'h');
        },
        OfficeType::MedicalAdvisor => {
            reveal_strlit("MedicalAdvisor");
            assert("MedicalAdvisor"@.len() == 14 && "MedicalAdvisor"@[0] == 'M' && "MedicalAdvisor"@[4] == 'c');
        },
        OfficeType::ContentCreator => {
            reveal_strlit("ContentCreator");
            assert("ContentCreator"@.len() == 14 && "ContentCreator"@[0] == 'C' && "ContentCreator"@[4] == 'e');
        },
        OfficeType::VideoEditor => {
            reveal_strlit("VideoEditor");
            assert("VideoEditor"@.len() == 11 && "VideoEditor"@[0] == 'V' && "VideoEditor"@[4] == 'o');
        },
        OfficeType::GraphicDesigner => {
            reveal_strlit("GraphicDesigner");
            assert("GraphicDesigner"@.len() == 15 && "GraphicDesigner"@[0] == 'G' && "GraphicDesigner"@[4] == 'h');
        },
        OfficeType::MusicProducer => {
            reveal_strlit("MusicProducer");
            assert("MusicProducer"@.len() == 13 && "MusicProducer"@[0] == 'M' && "MusicProducer"@[4] == 'c');
        },
        OfficeType::DevOpsEngineer => {
            reveal_strlit("DevOpsEngineer");
            assert("DevOpsEngineer"@.len() == 14 && "DevOpsEngineer"@[0] == 'D' && "DevOpsEngineer"@[4] == 'p');
        },
        OfficeType::DataAnalyst => {
            reveal_strlit("DataAnalyst");
            assert("DataAnalyst"@.len() == 11 && "DataAnalyst"@[0] == 'D' && "DataAnalyst"@[4] == 'A');
        },
        OfficeType::SecurityAnalyst => {
            reveal_strlit("SecurityAnalyst");
            assert("SecurityAnalyst"@.len() == 15 && "SecurityAnalyst"@[0] == 'S' && "SecurityAnalyst"@[4] == 'r');
        },
        OfficeType::CloudArchitect => {
            reveal_strlit("CloudArchitect");
            assert("CloudArchitect"@.len() == 14 && "CloudArchitect"@[0] == 'C' && "CloudArchitect"@[4] == 'd');
        },
        OfficeType::ResearchAnalyst => {
            reveal_strlit("ResearchAnalyst");
            assert("ResearchAnalyst"@.len() == 15 && "ResearchAnalyst"@[0] == 'R' && "ResearchAnalyst"@[4] == 'a');
        },
        OfficeType::EducationAdvisor => {
            reveal_strlit("EducationAdvisor");
            assert("EducationAdvisor"@.len() == 16 && "EducationAdvisor"@[0] == 'E' && "EducationAdvisor"@[4] == 'a');
        },
        OfficeType::LanguageTutor => {
            reveal_strlit("LanguageTutor");
            assert("LanguageTutor"@.len() == 13 && "LanguageTutor"@[0] == 'L' && "LanguageTutor"@[4] == 'u');
        },
        OfficeType::SkillCoach => {
            reveal_strlit("SkillCoach");
            assert("SkillCoach"@.len() == 10 && "SkillCoach"@[0] == 'S' && "SkillCoach"@[4] == 'l');
        },
        OfficeType::TarotReader => {
            reveal_strlit("TarotReader");
            assert("TarotReader"@.len() == 11 && "TarotReader"@[0] == 'T' && "TarotReader"@[4] == 't');
        },
        OfficeType::Astrologer => {
            reveal_strlit("Astrologer");
            assert("Astrologer"@.len() == 10 && "Astrologer"@[0] == 'A' && "Astrologer"@[4] == 'o');
        },
        OfficeType::MeditationGuide => {
            reveal_strlit("MeditationGuide");
            assert("MeditationGuide"@.len() == 15 && "MeditationGuide"@[0] == 'M' && "MeditationGuide"@[4] == 't');
        },
        OfficeType::LifeCoach => {
            reveal_strlit("LifeCoach");
            assert("LifeCoach"@.len() == 9 && "LifeCoach"@[0] == 'L' && "LifeCoach"@[4] == 'C');
        },
        OfficeType::KitchenManager => {
            reveal_strlit("KitchenManager");
            assert("KitchenManager"@.len() == 14 && "KitchenManager"@[0] == 'K' && "KitchenManager"@[4] == 'h');
        },
        OfficeType::HomeAutomation => {
            reveal_strlit("HomeAutomation");
            assert("HomeAutomation"@.len() == 14 && "HomeAutomation"@[0] == 'H' && "HomeAutomation"@[4] == 'A');
        },
        OfficeType::MaintenanceScheduler => {
            reveal_strlit("MaintenanceScheduler");
            assert("MaintenanceScheduler"@.len() == 20 && "MaintenanceScheduler"@[0] == 'M' && "MaintenanceScheduler"@[4] == 't');
        },
        OfficeType::QuantumComputing => {
            reveal_strlit("QuantumComputing");
            assert("QuantumComputing"@.len() == 16 && "QuantumComputing"@[0] == 'Q' && "QuantumComputing"@[4] == 't');
        },
        OfficeType::EmergencyResponse => {
            reveal_strlit("EmergencyResponse");
            assert("EmergencyResponse"@.len() == 17 && "EmergencyResponse"@[0] == 'E' && "EmergencyResponse"@[4] == 'g');
        },
    }
}

/// No two roles share an identifier.
pub proof fn lemma_identifier_injective(a: OfficeType, b: OfficeType)
    requires
        a.identifier() == b.identifier(),
    ensures
        a == b,
{
    lemma_identifier_mark(a);
    lemma_identifier_mark(b);
}

/// Every role occurs in `all_office_types()`.
pub proof fn lemma_all_office_types_complete(t: OfficeType)
    ensures
        exists|i: int| 0 <= i < all_office_types().len() && all_office_types()[i] == t,
{
    let all = all_office_types();
    match t {
        OfficeType::Orchestrator => assert(all[0] == t),
        OfficeType::Memory => assert(all[1] == t),
        OfficeType::Security => assert(all[2] == t),
        OfficeType::TradingOffice => assert(all[3] == t),
        OfficeType::CryptoOffice => assert(all[4] == t),
        OfficeType::TaxAdvisor => assert(all[5] == t),
        OfficeType::FinancialAdvisor => assert(all[6] == t),
        OfficeType::BankingOffice => assert(all[7] == t),
        OfficeType::LegalOffice => assert(all[8] == t),
        OfficeType::ComplianceOfficer => assert(all[9] == t),
        OfficeType::ContractAnalyst => assert(all[10] == t),
        OfficeType::IntellectualProperty => assert(all[11] == t),
        OfficeType::TravelPlanner => assert(all[12] == t),
        OfficeType::RestaurantConcierge => assert(all[13] == t),
        OfficeType::EventCoordinator => assert(all[14] == t),
        OfficeType::PersonalShopper => assert(all[15] == t),
        OfficeType::PhysicalTrainer => assert(all[16] == t),
        OfficeType::Nutritionist => assert(all[17] == t),
        OfficeType::SleepCoach => assert(all[18] == t),
        OfficeType::Psychologist => assert(all[19] == t),
        OfficeType::MedicalAdvisor => assert(all[20] == t),
        OfficeType::ContentCreator => assert(all[21] == t),
        OfficeType::VideoEditor => assert(all[22] == t),
        OfficeType::GraphicDesigner => assert(all[23] == t),
        OfficeType::MusicProducer => assert(all[24] == t),
        OfficeType::DevOpsEngineer => assert(all[25] == t),
        OfficeType::DataAnalyst => assert(all[26] == t),
        OfficeType::SecurityAnalyst => assert(all[27] == t),
        OfficeType::CloudArchitect => assert(all[28] == t),
        OfficeType::ResearchAnalyst => assert(all[29] == t),
        OfficeType::EducationAdvisor => assert(all[30] == t),
        OfficeType::LanguageTutor => assert(all[31] == t),
        OfficeType::SkillCoach => assert(all[32] == t),
        OfficeType::TarotReader => assert(all[33] == t),
        OfficeType::Astrologer => assert(all[34] == t),
        OfficeType::MeditationGuide => assert(all[35] == t),
        OfficeType::LifeCoach => assert(all[36] == t),
        OfficeType::KitchenManager => assert(all[37] == t),
        OfficeType::HomeAutomation => assert(all[38] == t),
        OfficeType::MaintenanceScheduler => assert(all[39] == t),
        OfficeType::QuantumComputing => assert(all[40] == t),
        OfficeType::EmergencyResponse => assert(all[41] == t),
    }
}

} // verus!
