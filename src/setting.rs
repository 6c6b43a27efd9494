use crate::barcode::BarcodeSetting;
use crate::item::{decimal_u32, ParseError, RentalSetting};
use vstd::prelude::*;

verus! {

pub const NUM_USERS_FOR_FREE: u32 = 50;
pub const NUM_BOOKS_FOR_FREE: u32 = 500;
pub const NUM_TRANSACTIONS_FOR_FREE: u32 = 5000;
pub const NUM_USERS_FOR_LIGHT: u32 = 100;
pub const NUM_BOOKS_FOR_LIGHT: u32 = 1000;
pub const NUM_TRANSACTIONS_FOR_LIGHT: u32 = 10000;
pub const NUM_USERS_FOR_STANDARD: u32 = 1000;
pub const NUM_BOOKS_FOR_STANDARD: u32 = 10000;
pub const NUM_TRANSACTIONS_FOR_STANDARD: u32 = 50000;

/// Subscription plan of a tenant.
#[derive(Clone, Copy, Debug, PartialEq, Eq, Structural)]
pub enum MonthlyPlan {
    Free,
    Light,
    Standard,
}

/// Tenant-wide settings; `max_num_transactions` bounds the ring counter.
#[derive(Debug)]
pub struct SystemSetting {
    pub id: u32,
    pub max_num_transactions: u32,
    pub max_registered_users: u32,
    pub max_registered_books: u32,
    pub time_zone: String,
    pub num_threads: u32,
    pub max_parallel_registrations: u32,
}

/// Members, books and ledger ids a plan allows.
pub open spec fn plan_limits(plan: MonthlyPlan) -> (u32, u32, u32) {
    match plan {
        MonthlyPlan::Free => (NUM_USERS_FOR_FREE, NUM_BOOKS_FOR_FREE, NUM_TRANSACTIONS_FOR_FREE),
        MonthlyPlan::Light => (NUM_USERS_FOR_LIGHT, NUM_BOOKS_FOR_LIGHT, NUM_TRANSACTIONS_FOR_LIGHT),
        MonthlyPlan::Standard => (
            NUM_USERS_FOR_STANDARD,
            NUM_BOOKS_FOR_STANDARD,
            NUM_TRANSACTIONS_FOR_STANDARD,
        ),
    }
}

impl SystemSetting {
    pub fn default() -> (r: Self)
        ensures
            r.id == 0,
            r.max_num_transactions == 0,
            r.max_registered_users == 0,
            r.max_registered_books == 0,
            r.time_zone@ == "Tokyo"@,
            r.num_threads == 10,
            r.max_parallel_registrations == 1000,
    {
        SystemSetting {
            id: 0,
            max_num_transactions: 0,
            max_registered_users: 0,
            max_registered_books: 0,
            time_zone: "Tokyo".to_owned(),
            num_threads: 10,
            max_parallel_registrations: 1000,
        }
    }
}

/// Sets the limits of `plan` on the tenant's settings.
pub fn set_system_limits(system_setting: &mut SystemSetting, plan: &MonthlyPlan)
    ensures
        (
            final(system_setting).max_registered_users,
            final(system_setting).max_registered_books,
            final(system_setting).max_num_transactions,
        ) == plan_limits(*plan),
        final(system_setting).id == old(system_setting).id,
        final(system_setting).time_zone == old(system_setting).time_zone,
        final(system_setting).num_threads == old(system_setting).num_threads,
        final(system_setting).max_parallel_registrations == old(
            system_setting,
        ).max_parallel_registrations,
{
    match plan {
        MonthlyPlan::Free => {
            system_setting.max_registered_users = NUM_USERS_FOR_FREE;
            system_setting.max_registered_books = NUM_BOOKS_FOR_FREE;
            system_setting.max_num_transactions = NUM_TRANSACTIONS_FOR_FREE;
        },
        MonthlyPlan::Light => {
            system_setting.max_registered_users = NUM_USERS_FOR_LIGHT;
            system_setting.max_registered_books = NUM_BOOKS_FOR_LIGHT;
            system_setting.max_num_transactions = NUM_TRANSACTIONS_FOR_LIGHT;
        },
        MonthlyPlan::Standard => {
            system_setting.max_registered_users = NUM_USERS_FOR_STANDARD;
            system_setting.max_registered_books = NUM_BOOKS_FOR_STANDARD;
            system_setting.max_num_transactions = NUM_TRANSACTIONS_FOR_STANDARD;
        },
    }
}

/// A change of the loan rules, as text.
#[derive(Debug)]
pub struct Form1Data {
    pub num_books: String,
    pub num_days: String,
}

/// A change of the barcode bounds, as text.
#[derive(Debug)]
pub struct Form2Data {
    pub user_keta_min: String,
    pub user_keta_max: String,
    pub book_keta_min: String,
    pub book_keta_max: String,
}

impl Form1Data {
    /// The loan rules the form asks for.
    pub fn to_setting(&self) -> (r: Result<RentalSetting, ParseError>)
        ensures
            decimal_u32(self.num_books@) is Ok && decimal_u32(self.num_days@) is Ok ==> r == Ok::<
                RentalSetting,
                ParseError,
            >(
                RentalSetting {
                    id: 0,
                    num_books: decimal_u32(self.num_books@)->Ok_0,
                    num_days: decimal_u32(self.num_days@)->Ok_0,
                },
            ),
            decimal_u32(self.num_books@) is Err ==> r == Err::<RentalSetting, ParseError>(
                decimal_u32(self.num_books@)->Err_0,
            ),
            decimal_u32(self.num_books@) is Ok && decimal_u32(self.num_days@) is Err ==> r == Err::<
                RentalSetting,
                ParseError,
            >(decimal_u32(self.num_days@)->Err_0),
    {
        RentalSetting::new(self.num_books.as_str(), self.num_days.as_str())
    }
}

impl Form2Data {
    /// The barcode bounds the form asks for.
    pub fn to_setting(&self) -> (r: Result<BarcodeSetting, ParseError>)
        ensures
            r is Ok <==> decimal_u32(self.user_keta_min@) is Ok && decimal_u32(
                self.user_keta_max@,
            ) is Ok && decimal_u32(self.book_keta_min@) is Ok && decimal_u32(
                self.book_keta_max@,
            ) is Ok,
            r is Ok ==> r == Ok::<BarcodeSetting, ParseError>(
                BarcodeSetting {
                    id: 1,
                    user_keta_min: decimal_u32(self.user_keta_min@)->Ok_0,
                    user_keta_max: decimal_u32(self.user_keta_max@)->Ok_0,
                    book_keta_min: decimal_u32(self.book_keta_min@)->Ok_0,
                    book_keta_max: decimal_u32(self.book_keta_max@)->Ok_0,
                },
            ),
    {
        BarcodeSetting::new(
            self.user_keta_min.as_str(),
            self.user_keta_max.as_str(),
            self.book_keta_min.as_str(),
            self.book_keta_max.as_str(),
        )
    }
}

} // verus!
