use vstd::prelude::*;

verus! {

/// Automaton id of the debugging pattern.
pub const P_TEST: u32 = 0;
/// Automaton id of the e-mail address pattern.
pub const P_EMAIL: u32 = 1;
/// Automaton id of the IPv4 address pattern.
pub const P_IP: u32 = 2;
/// Automaton id of the quoted string pattern.
pub const P_QUOTED: u32 = 3;
/// Automaton id of the date pattern.
pub const P_DATE: u32 = 4;
/// Automaton id of the phone number pattern.
pub const P_PHONE: u32 = 5;
/// Automaton id of the user-agent pattern.
pub const P_USER_AGENT: u32 = 6;
/// Automaton id of the URL pattern.
pub const P_URL: u32 = 7;

/// A category of structured text that the scanner looks for.
/// `Unknown` and `Test` are internal sentinels and never reach callers.
#[derive(Debug, Clone, Copy, PartialEq, Eq, Structural)]
pub enum PatternType {
    IP,
    Email,
    Date,
    Quoted,
    Url,
    Phone,
    UserAgent,
    Unknown,
    Test,
}

/// The kinds that callers see: every kind but the sentinels.
pub open spec fn is_exposed(k: PatternType) -> bool {
    k != PatternType::Unknown && k != PatternType::Test
}

/// The fixed automaton id of each kind.
pub open spec fn spec_pattern_id(k: PatternType) -> u32 {
    match k {
        PatternType::IP => P_IP,
        PatternType::Email => P_EMAIL,
        PatternType::Date => P_DATE,
        PatternType::Quoted => P_QUOTED,
        PatternType::Url => P_URL,
        PatternType::Phone => P_PHONE,
        PatternType::UserAgent => P_USER_AGENT,
        PatternType::Unknown => P_TEST,
        PatternType::Test => P_TEST,
    }
}

/// The kind that an automaton event id stands for; ids outside the
/// registry (the debugging id included) are `Unknown`.
pub open spec fn spec_kind_of_id(id: u32) -> PatternType {
    if id == P_IP {
        PatternType::IP
    } else if id == P_EMAIL {
        PatternType::Email
    } else if id == P_DATE {
        PatternType::Date
    } else if id == P_QUOTED {
        PatternType::Quoted
    } else if id == P_URL {
        PatternType::Url
    } else if id == P_PHONE {
        PatternType::Phone
    } else if id == P_USER_AGENT {
        PatternType::UserAgent
    } else {
        PatternType::Unknown
    }
}

/// The output field name of each exposed kind.
pub open spec fn spec_field_name(k: PatternType) -> Option<Seq<char>> {
    match k {
        PatternType::IP => Some("ip"@),
        PatternType::Email => Some("email"@),
        PatternType::Date => Some("date"@),
        PatternType::Quoted => Some("quoted"@),
        PatternType::Url => Some("url"@),
        PatternType::Phone => Some("phone"@),
        PatternType::UserAgent => Some("user_agent"@),
        PatternType::Unknown => None,
        PatternType::Test => None,
    }
}

impl PatternType {
    /// The automaton id under which this kind is registered.
    pub fn pattern_id(self) -> (r: u32)
        ensures
            r == spec_pattern_id(self),
    {
        match self {
            PatternType::IP => P_IP,
            PatternType::Email => P_EMAIL,
            PatternType::Date => P_DATE,
            PatternType::Quoted => P_QUOTED,
            PatternType::Url => P_URL,
            PatternType::Phone => P_PHONE,
            PatternType::UserAgent => P_USER_AGENT,
            PatternType::Unknown => P_TEST,
            PatternType::Test => P_TEST,
        }
    }

    /// Maps an automaton event id to its kind.
    pub fn from_id(id: u32) -> (r: PatternType)
        ensures
            r == spec_kind_of_id(id),
    {
        if id == P_IP {
            PatternType::IP
        } else if id == P_EMAIL {
            PatternType::Email
        } else if id == P_DATE {
            PatternType::Date
        } else if id == P_QUOTED {
            PatternType::Quoted
        } else if id == P_URL {
            PatternType::Url
        } else if id == P_PHONE {
            PatternType::Phone
        } else if id == P_USER_AGENT {
            PatternType::UserAgent
        } else {
            PatternType::Unknown
        }
    }

    /// The name of the output field that holds this kind's spans;
    /// `None` for the sentinels.
    pub fn field_name(self) -> (r: Option<&'static str>)
        ensures
            match r {
                Some(s) => spec_field_name(self) == Some(s@),
                None => spec_field_name(self).is_none(),
            },
    {
        match self {
            PatternType::IP => Some("ip"),
            PatternType::Email => Some("email"),
            PatternType::Date => Some("date"),
            PatternType::Quoted => Some("quoted"),
            PatternType::Url => Some("url"),
            PatternType::Phone => Some("phone"),
            PatternType::UserAgent => Some("user_agent"),
            PatternType::Unknown => None,
            PatternType::Test => None,
        }
    }
}

/// The set of pattern kinds enabled by configuration.
#[derive(Debug, Clone, Copy, PartialEq, Eq, Structural)]
pub struct ScanFlags {
    pub ip: bool,
    pub email: bool,
    pub date: bool,
    pub quoted: bool,
    pub url: bool,
    pub phone: bool,
    pub user_agent: bool,
}

impl ScanFlags {
    /// Whether kind `k` is enabled; the sentinels never are.
    pub open spec fn enabled(&self, k: PatternType) -> bool {
        match k {
            PatternType::IP => self.ip,
            PatternType::Email => self.email,
            PatternType::Date => self.date,
            PatternType::Quoted => self.quoted,
            PatternType::Url => self.url,
            PatternType::Phone => self.phone,
            PatternType::UserAgent => self.user_agent,
            PatternType::Unknown => false,
            PatternType::Test => false,
        }
    }

    /// No kind enabled.
    pub fn none() -> (r: ScanFlags)
        ensures
            forall|k: PatternType| !#[trigger] r.enabled(k),
    {
        ScanFlags {
            ip: false,
            email: false,
            date: false,
            quoted: false,
            url: false,
            phone: false,
            user_agent: false,
        }
    }

    /// Every exposed kind enabled.
    pub fn all() -> (r: ScanFlags)
        ensures
            forall|k: PatternType| #[trigger] r.enabled(k) == is_exposed(k),
    {
        ScanFlags {
            ip: true,
            email: true,
            date: true,
            quoted: true,
            url: true,
            phone: true,
            user_agent: true,
        }
    }

    /// Whether kind `k` is enabled.
    pub fn contains(&self, k: PatternType) -> (r: bool)
        ensures
            r == self.enabled(k),
    {
        match k {
            PatternType::IP => self.ip,
            PatternType::Email => self.email,
            PatternType::Date => self.date,
            PatternType::Quoted => self.quoted,
            PatternType::Url => self.url,
            PatternType::Phone => self.phone,
            PatternType::UserAgent => self.user_agent,
            PatternType::Unknown => false,
            PatternType::Test => false,
        }
    }
}

} // verus!
