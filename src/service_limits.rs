//! Service protection limits on customer data: the number of tables in a
//! namespace and of columns per table. Limits are stored and transferred as
//! `i32`, so a limit is a positive value that fits in an `i32`.
use vstd::prelude::*;

verus! {

/// Errors converting from raw values to the service limits.
#[derive(Debug, Clone, Copy, PartialEq, Eq, Structural)]
pub enum ServiceLimitError {
    /// A negative or 0 value was specified; those aren't allowed.
    MustBeGreaterThanZero,
    /// No value was provided so we can't update anything.
    NoValueSpecified,
    /// The value does not fit in an `i32`.
    MustFitInI32,
}

impl ServiceLimitError {
    /// The message describing this error.
    pub fn to_string(&self) -> (r: String)
        ensures
            r@ == match self {
                ServiceLimitError::MustBeGreaterThanZero => "service limit values must be greater than 0"@,
                ServiceLimitError::NoValueSpecified => "a supported service limit value is required"@,
                ServiceLimitError::MustFitInI32 => "service limit values must fit in a 32-bit signed integer (`i32`)"@,
            },
    {
        match self {
            ServiceLimitError::MustBeGreaterThanZero => String::from_str(
                "service limit values must be greater than 0",
            ),
            ServiceLimitError::NoValueSpecified => String::from_str(
                "a supported service limit value is required",
            ),
            ServiceLimitError::MustFitInI32 => String::from_str(
                "service limit values must fit in a 32-bit signed integer (`i32`)",
            ),
        }
    }
}

/// The outcome of converting a raw value to a limit.
pub open spec fn limit_from_int(v: int) -> Result<usize, ServiceLimitError> {
    if v > i32::MAX {
        Err(ServiceLimitError::MustFitInI32)
    } else if v <= 0 {
        Err(ServiceLimitError::MustBeGreaterThanZero)
    } else {
        Ok(v as usize)
    }
}

/// Checks a raw limit value: positive and within `i32`.
pub fn limit_from_u64(v: u64) -> (r: Result<usize, ServiceLimitError>)
    ensures
        r == limit_from_int(v as int),
{
    if v > i32::MAX as u64 {
        Err(ServiceLimitError::MustFitInI32)
    } else if v == 0 {
        Err(ServiceLimitError::MustBeGreaterThanZero)
    } else {
        Ok(v as usize)
    }
}

/// Checks a raw limit value given as an `i32`: positive.
pub fn limit_from_i32(v: i32) -> (r: Result<usize, ServiceLimitError>)
    ensures
        r == limit_from_int(v as int),
{
    if v <= 0 {
        Err(ServiceLimitError::MustBeGreaterThanZero)
    } else {
        Ok(v as usize)
    }
}

/// Max tables allowed in a namespace.
#[derive(Debug, Clone, Copy, PartialEq, Eq, PartialOrd, Ord, Hash, Structural)]
pub struct MaxTables(usize);

impl View for MaxTables {
    type V = usize;

    closed spec fn view(&self) -> usize {
        self.0
    }
}

impl MaxTables {
    #[verifier::type_invariant]
    spec fn valid(self) -> bool {
        0 < self.0 <= i32::MAX
    }

    pub fn get(&self) -> (r: usize)
        ensures
            r == self@,
            0 < r <= i32::MAX,
    {
        proof {
            use_type_invariant(self);
        }
        self.0
    }

    /// The limit as stored in the database and in protobuf messages.
    pub fn get_i32(&self) -> (r: i32)
        ensures
            r as int == self@ as int,
    {
        proof {
            use_type_invariant(self);
        }
        self.0 as i32
    }

    /// The default limit.
    pub fn const_default() -> (r: Self)
        ensures
            r@ == 500,
    {
        MaxTables(500)
    }

    fn from_checked(r: Result<usize, ServiceLimitError>) -> (out: Result<Self, ServiceLimitError>)
        requires
            r is Ok ==> 0 < r->Ok_0 <= i32::MAX,
        ensures
            match r {
                Ok(v) => out is Ok && out->Ok_0@ == v,
                Err(e) => out == Err::<Self, ServiceLimitError>(e),
            },
    {
        match r {
            Ok(v) => Ok(MaxTables(v)),
            Err(e) => Err(e),
        }
    }
}

impl Default for MaxTables {
    fn default() -> (r: Self)
        ensures
            r@ == 500,
    {
        Self::const_default()
    }
}

impl TryFrom<usize> for MaxTables {
    type Error = ServiceLimitError;

    fn try_from(value: usize) -> (r: Result<Self, ServiceLimitError>)
        ensures
            match limit_from_int(value as int) {
                Ok(v) => r is Ok && r->Ok_0@ == v,
                Err(e) => r == Err::<Self, ServiceLimitError>(e),
            },
    {
        Self::from_checked(limit_from_u64(value as u64))
    }
}

impl vstd::std_specs::convert::TryFromSpecImpl<usize> for MaxTables {
    open spec fn obeys_try_from_spec() -> bool {
        true
    }

    closed spec fn try_from_spec(value: usize) -> Result<Self, ServiceLimitError> {
        match limit_from_int(value as int) {
            Ok(v) => Ok(MaxTables(v)),
            Err(e) => Err(e),
        }
    }
}

impl TryFrom<u64> for MaxTables {
    type Error = ServiceLimitError;

    fn try_from(value: u64) -> (r: Result<Self, ServiceLimitError>)
        ensures
            match limit_from_int(value as int) {
                Ok(v) => r is Ok && r->Ok_0@ == v,
                Err(e) => r == Err::<Self, ServiceLimitError>(e),
            },
    {
        Self::from_checked(limit_from_u64(value))
    }
}

impl vstd::std_specs::convert::TryFromSpecImpl<u64> for MaxTables {
    open spec fn obeys_try_from_spec() -> bool {
        true
    }

    closed spec fn try_from_spec(value: u64) -> Result<Self, ServiceLimitError> {
        match limit_from_int(value as int) {
            Ok(v) => Ok(MaxTables(v)),
            Err(e) => Err(e),
        }
    }
}

impl TryFrom<i32> for MaxTables {
    type Error = ServiceLimitError;

    fn try_from(value: i32) -> (r: Result<Self, ServiceLimitError>)
        ensures
            match limit_from_int(value as int) {
                Ok(v) => r is Ok && r->Ok_0@ == v,
                Err(e) => r == Err::<Self, ServiceLimitError>(e),
            },
    {
        Self::from_checked(limit_from_i32(value))
    }
}

impl vstd::std_specs::convert::TryFromSpecImpl<i32> for MaxTables {
    open spec fn obeys_try_from_spec() -> bool {
        true
    }

    closed spec fn try_from_spec(value: i32) -> Result<Self, ServiceLimitError> {
        match limit_from_int(value as int) {
            Ok(v) => Ok(MaxTables(v)),
            Err(e) => Err(e),
        }
    }
}

/// Max columns per table allowed in a namespace.
#[derive(Debug, Clone, Copy, PartialEq, Eq, PartialOrd, Ord, Hash, Structural)]
pub struct MaxColumnsPerTable(usize);

impl View for MaxColumnsPerTable {
    type V = usize;

    closed spec fn view(&self) -> usize {
        self.0
    }
}

impl MaxColumnsPerTable {
    #[verifier::type_invariant]
    spec fn valid(self) -> bool {
        0 < self.0 <= i32::MAX
    }

    pub fn get(&self) -> (r: usize)
        ensures
            r == self@,
            0 < r <= i32::MAX,
    {
        proof {
            use_type_invariant(self);
        }
        self.0
    }

    /// The limit as stored in the database and in protobuf messages.
    pub fn get_i32(&self) -> (r: i32)
        ensures
            r as int == self@ as int,
    {
        proof {
            use_type_invariant(self);
        }
        self.0 as i32
    }

    /// The default limit.
    pub fn const_default() -> (r: Self)
        ensures
            r@ == 200,
    {
        MaxColumnsPerTable(200)
    }

    fn from_checked(r: Result<usize, ServiceLimitError>) -> (out: Result<Self, ServiceLimitError>)
        requires
            r is Ok ==> 0 < r->Ok_0 <= i32::MAX,
        ensures
            match r {
                Ok(v) => out is Ok && out->Ok_0@ == v,
                Err(e) => out == Err::<Self, ServiceLimitError>(e),
            },
    {
        match r {
            Ok(v) => Ok(MaxColumnsPerTable(v)),
            Err(e) => Err(e),
        }
    }
}

impl Default for MaxColumnsPerTable {
    fn default() -> (r: Self)
        ensures
            r@ == 200,
    {
        Self::const_default()
    }
}

impl TryFrom<usize> for MaxColumnsPerTable {
    type Error = ServiceLimitError;

    fn try_from(value: usize) -> (r: Result<Self, ServiceLimitError>)
        ensures
            match limit_from_int(value as int) {
                Ok(v) => r is Ok && r->Ok_0@ == v,
                Err(e) => r == Err::<Self, ServiceLimitError>(e),
            },
    {
        Self::from_checked(limit_from_u64(value as u64))
    }
}

impl vstd::std_specs::convert::TryFromSpecImpl<usize> for MaxColumnsPerTable {
    open spec fn obeys_try_from_spec() -> bool {
        true
    }

    closed spec fn try_from_spec(value: usize) -> Result<Self, ServiceLimitError> {
        match limit_from_int(value as int) {
            Ok(v) => Ok(MaxColumnsPerTable(v)),
            Err(e) => Err(e),
        }
    }
}

impl TryFrom<u64> for MaxColumnsPerTable {
    type Error = ServiceLimitError;

    fn try_from(value: u64) -> (r: Result<Self, ServiceLimitError>)
        ensures
            match limit_from_int(value as int) {
                Ok(v) => r is Ok && r->Ok_0@ == v,
                Err(e) => r == Err::<Self, ServiceLimitError>(e),
            },
    {
        Self::from_checked(limit_from_u64(value))
    }
}

impl vstd::std_specs::convert::TryFromSpecImpl<u64> for MaxColumnsPerTable {
    open spec fn obeys_try_from_spec() -> bool {
        true
    }

    closed spec fn try_from_spec(value: u64) -> Result<Self, ServiceLimitError> {
        match limit_from_int(value as int) {
            Ok(v) => Ok(MaxColumnsPerTable(v)),
            Err(e) => Err(e),
        }
    }
}

impl TryFrom<i32> for MaxColumnsPerTable {
    type Error = ServiceLimitError;

    fn try_from(value: i32) -> (r: Result<Self, ServiceLimitError>)
        ensures
            match limit_from_int(value as int) {
                Ok(v) => r is Ok && r->Ok_0@ == v,
                Err(e) => r == Err::<Self, ServiceLimitError>(e),
            },
    {
        Self::from_checked(limit_from_i32(value))
    }
}

impl vstd::std_specs::convert::TryFromSpecImpl<i32> for MaxColumnsPerTable {
    open spec fn obeys_try_from_spec() -> bool {
        true
    }

    closed spec fn try_from_spec(value: i32) -> Result<Self, ServiceLimitError> {
        match limit_from_int(value as int) {
            Ok(v) => Ok(MaxColumnsPerTable(v)),
            Err(e) => Err(e),
        }
    }
}

/// Limits as carried by the namespace API: each one optional, each an
/// `i32` on the wire.
#[derive(Debug, Clone, Copy, PartialEq, Eq, Structural)]
pub struct ServiceProtectionLimits {
    pub max_tables: Option<i32>,
    pub max_columns_per_table: Option<i32>,
}

/// The one limit that an update request sets.
#[derive(Debug, Clone, Copy, PartialEq, Eq, Structural)]
pub enum LimitUpdate {
    MaxTables(i32),
    MaxColumnsPerTable(i32),
}

/// Overrides for service protection limits.
#[derive(Debug, Clone, Copy)]
pub struct NamespaceServiceProtectionLimitsOverride {
    /// The maximum number of tables that can exist in this namespace.
    pub max_tables: Option<MaxTables>,
    /// The maximum number of columns per table in this namespace.
    pub max_columns_per_table: Option<MaxColumnsPerTable>,
}

/// The error of converting an optional raw limit, if any.
pub open spec fn optional_limit_error(v: Option<i32>) -> Option<ServiceLimitError> {
    match v {
        Some(n) => match limit_from_int(n as int) {
            Ok(_) => None,
            Err(e) => Some(e),
        },
        None => None,
    }
}

impl NamespaceServiceProtectionLimitsOverride {
    /// Converts both limits; the first invalid one, tables first, is the
    /// error.
    pub fn try_from(value: ServiceProtectionLimits) -> (r: Result<Self, ServiceLimitError>)
        ensures
            optional_limit_error(value.max_tables) is Some ==> r == Err::<Self, ServiceLimitError>(
                optional_limit_error(value.max_tables)->Some_0,
            ),
            optional_limit_error(value.max_tables) is None && optional_limit_error(
                value.max_columns_per_table,
            ) is Some ==> r == Err::<Self, ServiceLimitError>(
                optional_limit_error(value.max_columns_per_table)->Some_0,
            ),
            optional_limit_error(value.max_tables) is None && optional_limit_error(
                value.max_columns_per_table,
            ) is None ==> r is Ok && match value.max_tables {
                Some(n) => r->Ok_0.max_tables is Some && r->Ok_0.max_tables->Some_0@ == n as usize,
                None => r->Ok_0.max_tables is None,
            } && match value.max_columns_per_table {
                Some(n) => r->Ok_0.max_columns_per_table is Some
                    && r->Ok_0.max_columns_per_table->Some_0@ == n as usize,
                None => r->Ok_0.max_columns_per_table is None,
            },
    {
        let max_tables = match value.max_tables {
            Some(n) => match MaxTables::try_from(n) {
                Ok(t) => Some(t),
                Err(e) => return Err(e),
            },
            None => None,
        };
        let max_columns_per_table = match value.max_columns_per_table {
            Some(n) => match MaxColumnsPerTable::try_from(n) {
                Ok(c) => Some(c),
                Err(e) => return Err(e),
            },
            None => None,
        };
        Ok(NamespaceServiceProtectionLimitsOverride { max_tables, max_columns_per_table })
    }
}

/// Updating one, but not both, of the limits.
#[derive(Debug, Clone, Copy, PartialEq, Eq)]
pub enum ServiceLimitUpdate {
    /// Requesting an update to the maximum number of tables allowed in this
    /// namespace.
    MaxTables(MaxTables),
    /// Requesting an update to the maximum number of columns allowed in each
    /// table in this namespace.
    MaxColumnsPerTable(MaxColumnsPerTable),
}

impl ServiceLimitUpdate {
    /// Converts the limit that an update request sets; a request that sets
    /// none is refused with `NoValueSpecified`.
    pub fn try_from(limit_update: Option<LimitUpdate>) -> (r: Result<Self, ServiceLimitError>)
        ensures
            match limit_update {
                None => r == Err::<Self, ServiceLimitError>(ServiceLimitError::NoValueSpecified),
                Some(LimitUpdate::MaxTables(n)) => match limit_from_int(n as int) {
                    Ok(v) => r is Ok && match r->Ok_0 {
                        ServiceLimitUpdate::MaxTables(t) => t@ == v,
                        _ => false,
                    },
                    Err(e) => r == Err::<Self, ServiceLimitError>(e),
                },
                Some(LimitUpdate::MaxColumnsPerTable(n)) => match limit_from_int(n as int) {
                    Ok(v) => r is Ok && match r->Ok_0 {
                        ServiceLimitUpdate::MaxColumnsPerTable(c) => c@ == v,
                        _ => false,
                    },
                    Err(e) => r == Err::<Self, ServiceLimitError>(e),
                },
            },
    {
        match limit_update {
            Some(LimitUpdate::MaxTables(n)) => match MaxTables::try_from(n) {
                Ok(t) => Ok(ServiceLimitUpdate::MaxTables(t)),
                Err(e) => Err(e),
            },
            Some(LimitUpdate::MaxColumnsPerTable(n)) => match MaxColumnsPerTable::try_from(n) {
                Ok(c) => Ok(ServiceLimitUpdate::MaxColumnsPerTable(c)),
                Err(e) => Err(e),
            },
            None => Err(ServiceLimitError::NoValueSpecified),
        }
    }
}

} // verus!
