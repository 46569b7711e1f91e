use vstd::prelude::*;
use vstd::string::*;

verus! {

/// A voucher's position in its one-way life cycle: `Issued` is the only
/// state that moves, to `Redeemed` or to `Expired`.
#[derive(Clone, Copy, Debug, PartialEq, Eq, Structural)]
pub enum VoucherStatus {
    Issued,
    Redeemed,
    Expired,
}

/// A claim of fixed value bound to one beneficiary and one zone.
#[derive(Clone, Debug)]
pub struct Voucher {
    pub id: String,
    pub beneficiary_id: String,
    pub amount: u64,
    pub zone_id: String,
    pub status: VoucherStatus,
    /// Seconds since the epoch after which the voucher can no longer be redeemed.
    pub expiry: u64,
}

/// A zone's budget ledger: what may be issued as vouchers, and what has been.
#[derive(Clone, Debug)]
pub struct DisasterZone {
    pub name: String,
    pub active: bool,
    pub budget_allocated: u64,
    pub budget_spent: u64,
}

/// A party that may redeem vouchers once verified.
#[derive(Clone, Debug)]
pub struct Vendor {
    pub id: String,
    /// What the vendor supplies, such as "Food" or "Medical".
    pub category: String,
    pub verified: bool,
}

/// The broad class of a failure.
#[derive(Clone, Copy, Debug, PartialEq, Eq, Structural)]
pub enum ErrorKind {
    Conflict,
    NotFound,
    Authorization,
    InvalidState,
    Arithmetic,
    BudgetExceeded,
    Dependency,
}

/// Why an operation was refused. A refused operation leaves the state as it
/// was, except that a redemption attempt past expiry marks the voucher expired.
#[derive(Clone, Debug)]
pub enum AidError {
    /// The vendor is already registered and verified.
    AlreadyVerified,
    /// A zone with this identity exists.
    ZoneExists,
    ZoneNotFound,
    ZoneInactive,
    /// The budget sum would not fit in 64 bits.
    BudgetOverflow,
    /// The voucher would take the zone past its allocation.
    InsufficientBudget { remaining: u64 },
    /// A voucher was already issued to this beneficiary in this zone.
    DuplicateVoucher,
    /// The caller has no vendor record.
    NotAVendor,
    VendorNotVerified,
    VoucherNotFound,
    /// The voucher is no longer `Issued`.
    InvalidVoucherState { status: VoucherStatus },
    VoucherExpired,
    /// The token transfer to the vendor failed, for the reason given.
    TransferFailed { reason: String },
}

impl AidError {
    pub open spec fn spec_kind(&self) -> ErrorKind {
        match self {
            AidError::AlreadyVerified | AidError::ZoneExists | AidError::DuplicateVoucher => {
                ErrorKind::Conflict
            },
            AidError::ZoneNotFound | AidError::VoucherNotFound => ErrorKind::NotFound,
            AidError::NotAVendor | AidError::VendorNotVerified => ErrorKind::Authorization,
            AidError::ZoneInactive
            | AidError::InvalidVoucherState { .. }
            | AidError::VoucherExpired => ErrorKind::InvalidState,
            AidError::BudgetOverflow => ErrorKind::Arithmetic,
            AidError::InsufficientBudget { .. } => ErrorKind::BudgetExceeded,
            AidError::TransferFailed { .. } => ErrorKind::Dependency,
        }
    }

    /// The class of this error.
    #[verifier::when_used_as_spec(spec_kind)]
    pub fn kind(&self) -> (r: ErrorKind)
        ensures
            r == self.spec_kind(),
    {
        match self {
            AidError::AlreadyVerified | AidError::ZoneExists | AidError::DuplicateVoucher => {
                ErrorKind::Conflict
            },
            AidError::ZoneNotFound | AidError::VoucherNotFound => ErrorKind::NotFound,
            AidError::NotAVendor | AidError::VendorNotVerified => ErrorKind::Authorization,
            AidError::ZoneInactive
            | AidError::InvalidVoucherState { .. }
            | AidError::VoucherExpired => ErrorKind::InvalidState,
            AidError::BudgetOverflow => ErrorKind::Arithmetic,
            AidError::InsufficientBudget { .. } => ErrorKind::BudgetExceeded,
            AidError::TransferFailed { .. } => ErrorKind::Dependency,
        }
    }
}

/// The numeral of a decimal digit.
pub open spec fn digit_char(d: nat) -> char {
    seq!['0', '1', '2', '3', '4', '5', '6', '7', '8', '9'][d as int]
}

/// The decimal numeral of `n`, without sign or leading zeros.
pub open spec fn decimal(n: nat) -> Seq<char>
    decreases n,
{
    if n < 10 {
        seq![digit_char(n)]
    } else {
        decimal(n / 10) + seq![digit_char(n % 10)]
    }
}

/// Relies on `ToString::to_string` through `u64`'s `Display`, which writes
/// the decimal numeral.
#[verifier::external_body]
fn decimal_string(n: u64) -> (r: String)
    ensures
        r@ == decimal(n as nat),
{
    n.to_string()
}

impl VoucherStatus {
    pub open spec fn spec_name(&self) -> Seq<char> {
        match self {
            VoucherStatus::Issued => "Issued"@,
            VoucherStatus::Redeemed => "Redeemed"@,
            VoucherStatus::Expired => "Expired"@,
        }
    }

    /// The status's name, as it is shown to people.
    pub fn name(&self) -> (r: String)
        ensures
            r@ == self.spec_name(),
    {
        match self {
            VoucherStatus::Issued => "Issued".to_owned(),
            VoucherStatus::Redeemed => "Redeemed".to_owned(),
            VoucherStatus::Expired => "Expired".to_owned(),
        }
    }
}

impl AidError {
    pub open spec fn spec_message(&self) -> Seq<char> {
        match self {
            AidError::AlreadyVerified => "Vendor already registered and verified"@,
            AidError::ZoneExists => "Zone ID already exists"@,
            AidError::ZoneNotFound => "Zone not found"@,
            AidError::ZoneInactive => "Disaster zone is not active"@,
            AidError::BudgetOverflow => "Budget overflow: amount too large"@,
            AidError::InsufficientBudget { remaining } => "Insufficient budget. Remaining: "@
                + decimal(*remaining as nat),
            AidError::DuplicateVoucher => "Voucher already issued for this beneficiary in this zone"@,
            AidError::NotAVendor => "Caller is not a registered vendor"@,
            AidError::VendorNotVerified => "Vendor is suspended or not verified"@,
            AidError::VoucherNotFound => "Voucher invalid"@,
            AidError::InvalidVoucherState { status } => "Voucher status is "@ + status.spec_name(),
            AidError::VoucherExpired => "Voucher has expired"@,
            AidError::TransferFailed { reason } => reason@,
        }
    }

    /// A sentence that says what went wrong.
    pub fn message(&self) -> (r: String)
        ensures
            r@ == self.spec_message(),
    {
        match self {
            AidError::AlreadyVerified => "Vendor already registered and verified".to_owned(),
            AidError::ZoneExists => "Zone ID already exists".to_owned(),
            AidError::ZoneNotFound => "Zone not found".to_owned(),
            AidError::ZoneInactive => "Disaster zone is not active".to_owned(),
            AidError::BudgetOverflow => "Budget overflow: amount too large".to_owned(),
            AidError::InsufficientBudget { remaining } => {
                let mut m = "Insufficient budget. Remaining: ".to_owned();
                let digits = decimal_string(*remaining);
                m.append(digits.as_str());
                m
            },
            AidError::DuplicateVoucher => "Voucher already issued for this beneficiary in this zone".to_owned(),
            AidError::NotAVendor => "Caller is not a registered vendor".to_owned(),
            AidError::VendorNotVerified => "Vendor is suspended or not verified".to_owned(),
            AidError::VoucherNotFound => "Voucher invalid".to_owned(),
            AidError::InvalidVoucherState { status } => {
                let mut m = "Voucher status is ".to_owned();
                let name = status.name();
                m.append(name.as_str());
                m
            },
            AidError::VoucherExpired => "Voucher has expired".to_owned(),
            AidError::TransferFailed { reason } => reason.clone(),
        }
    }
}

} // verus!
