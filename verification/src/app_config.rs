use vstd::prelude::*;

verus! {

/// The persisted application configuration. Loading and storing it is the
/// embedding application's work; the library only defines the record and its
/// default.
#[derive(Debug, PartialEq)]
pub struct AppConfig {
    /// The directory the user chose as the destination for installed charts.
    pub customs_path: String,
}

impl Default for AppConfig {
    /// A fresh configuration: no destination directory chosen yet.
    fn default() -> (c: Self)
        ensures
            c.customs_path@ == Seq::<char>::empty(),
    {
        AppConfig { customs_path: String::new() }
    }
}

} // verus!
