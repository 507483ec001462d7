use vstd::prelude::*;

verus! {

/// How a database is opened. The C code of a variant is its position.
#[derive(Debug, Clone, Copy, PartialEq, Eq, Structural)]
pub enum DatabaseMode {
    ReadOnly,
    ReadWrite,
}

pub open spec fn database_mode_code(v: DatabaseMode) -> int {
    match v {
        DatabaseMode::ReadOnly => 0,
        DatabaseMode::ReadWrite => 1,
    }
}

impl DatabaseMode {
    /// The C code of this value.
    pub fn code(self) -> (r: i32)
        ensures
            r == database_mode_code(self),
    {
        match self {
            DatabaseMode::ReadOnly => 0,
            DatabaseMode::ReadWrite => 1,
        }
    }

    /// The value with a C code; `None` for a code outside the enumeration.
    pub fn from_code(code: i32) -> (r: Option<DatabaseMode>)
        ensures
            match r {
                Some(v) => database_mode_code(v) == code,
                None => code < 0 || code >= 2,
            },
    {
        match code {
            0 => Some(DatabaseMode::ReadOnly),
            1 => Some(DatabaseMode::ReadWrite),
            _ => None,
        }
    }
}

/// The order of a query's results. The C code of a variant is its position.
#[derive(Debug, Clone, Copy, PartialEq, Eq, Structural)]
pub enum Sort {
    OldestFirst,
    NewestFirst,
    MessageID,
    Unsorted,
}

pub open spec fn sort_code(v: Sort) -> int {
    match v {
        Sort::OldestFirst => 0,
        Sort::NewestFirst => 1,
        Sort::MessageID => 2,
        Sort::Unsorted => 3,
    }
}

impl Sort {
    /// The C code of this value.
    pub fn code(self) -> (r: i32)
        ensures
            r == sort_code(self),
    {
        match self {
            Sort::OldestFirst => 0,
            Sort::NewestFirst => 1,
            Sort::MessageID => 2,
            Sort::Unsorted => 3,
        }
    }

    /// The value with a C code; `None` for a code outside the enumeration.
    pub fn from_code(code: i32) -> (r: Option<Sort>)
        ensures
            match r {
                Some(v) => sort_code(v) == code,
                None => code < 0 || code >= 4,
            },
    {
        match code {
            0 => Some(Sort::OldestFirst),
            1 => Some(Sort::NewestFirst),
            2 => Some(Sort::MessageID),
            3 => Some(Sort::Unsorted),
            _ => None,
        }
    }
}

/// What a query does with messages that carry an excluded tag. The C code of a variant is its position.
#[derive(Debug, Clone, Copy, PartialEq, Eq, Structural)]
pub enum Exclude {
    Flag,
    True,
    False,
    All,
}

pub open spec fn exclude_code(v: Exclude) -> int {
    match v {
        Exclude::Flag => 0,
        Exclude::True => 1,
        Exclude::False => 2,
        Exclude::All => 3,
    }
}

impl Exclude {
    /// The C code of this value.
    pub fn code(self) -> (r: i32)
        ensures
            r == exclude_code(self),
    {
        match self {
            Exclude::Flag => 0,
            Exclude::True => 1,
            Exclude::False => 2,
            Exclude::All => 3,
        }
    }

    /// The value with a C code; `None` for a code outside the enumeration.
    pub fn from_code(code: i32) -> (r: Option<Exclude>)
        ensures
            match r {
                Some(v) => exclude_code(v) == code,
                None => code < 0 || code >= 4,
            },
    {
        match code {
            0 => Some(Exclude::Flag),
            1 => Some(Exclude::True),
            2 => Some(Exclude::False),
            3 => Some(Exclude::All),
            _ => None,
        }
    }
}

/// Flags that the native library keeps on a message. The C code of a variant is its position.
#[derive(Debug, Clone, Copy, PartialEq, Eq, Structural)]
pub enum MessageFlag {
    Match,
    Excluded,
    GhostMessage,
}

pub open spec fn message_flag_code(v: MessageFlag) -> int {
    match v {
        MessageFlag::Match => 0,
        MessageFlag::Excluded => 1,
        MessageFlag::GhostMessage => 2,
    }
}

impl MessageFlag {
    /// The C code of this value.
    pub fn code(self) -> (r: i32)
        ensures
            r == message_flag_code(self),
    {
        match self {
            MessageFlag::Match => 0,
            MessageFlag::Excluded => 1,
            MessageFlag::GhostMessage => 2,
        }
    }

    /// The value with a C code; `None` for a code outside the enumeration.
    pub fn from_code(code: i32) -> (r: Option<MessageFlag>)
        ensures
            match r {
                Some(v) => message_flag_code(v) == code,
                None => code < 0 || code >= 3,
            },
    {
        match code {
            0 => Some(MessageFlag::Match),
            1 => Some(MessageFlag::Excluded),
            2 => Some(MessageFlag::GhostMessage),
            _ => None,
        }
    }
}

/// Whether indexing decrypts encrypted parts. The C code of a variant is its position.
#[derive(Debug, Clone, Copy, PartialEq, Eq, Structural)]
pub enum DecryptionPolicy {
    False,
    True,
    Auto,
    NoStash,
}

pub open spec fn decryption_policy_code(v: DecryptionPolicy) -> int {
    match v {
        DecryptionPolicy::False => 0,
        DecryptionPolicy::True => 1,
        DecryptionPolicy::Auto => 2,
        DecryptionPolicy::NoStash => 3,
    }
}

impl DecryptionPolicy {
    /// The C code of this value.
    pub fn code(self) -> (r: i32)
        ensures
            r == decryption_policy_code(self),
    {
        match self {
            DecryptionPolicy::False => 0,
            DecryptionPolicy::True => 1,
            DecryptionPolicy::Auto => 2,
            DecryptionPolicy::NoStash => 3,
        }
    }

    /// The value with a C code; `None` for a code outside the enumeration.
    pub fn from_code(code: i32) -> (r: Option<DecryptionPolicy>)
        ensures
            match r {
                Some(v) => decryption_policy_code(v) == code,
                None => code < 0 || code >= 4,
            },
    {
        match code {
            0 => Some(DecryptionPolicy::False),
            1 => Some(DecryptionPolicy::True),
            2 => Some(DecryptionPolicy::Auto),
            3 => Some(DecryptionPolicy::NoStash),
            _ => None,
        }
    }
}

} // verus!
