//! What the tool reports when it cannot open its database.
use vstd::prelude::*;

verus! {

/// Why the connection to the database could not be opened, with the
/// driver's description where it gives one.
#[derive(Debug)]
pub enum DbFailure {
    /// The address of the database is not usable.
    Configuration(String),
    /// The database refused the connection.
    Database(String),
    /// The connection failed on input or output.
    Io(String),
    /// Any other failure.
    Other,
}

/// The message shown for a failure to open the database.
pub open spec fn spec_failure_message(f: DbFailure) -> Seq<char> {
    match f {
        DbFailure::Configuration(s) => "ERROR:"@ + s@ + "\tDatabase URL wrongly configurated"@,
        DbFailure::Database(e) => "ERROR:"@ + e@ + "\tDatabase error"@,
        DbFailure::Io(e) => "ERROR:"@ + e@,
        DbFailure::Other => "Another error occured"@,
    }
}

/// The message shown for a failure to open the database.
pub fn failure_message(f: &DbFailure) -> (m: String)
    ensures
        m@ == spec_failure_message(*f),
{
    match f {
        DbFailure::Configuration(s) => {
            let mut m = String::from_str("ERROR:");
            m.append(s.as_str());
            m.append("\tDatabase URL wrongly configurated");
            m
        },
        DbFailure::Database(e) => {
            let mut m = String::from_str("ERROR:");
            m.append(e.as_str());
            m.append("\tDatabase error");
            m
        },
        DbFailure::Io(e) => {
            let mut m = String::from_str("ERROR:");
            m.append(e.as_str());
            m
        },
        DbFailure::Other => String::from_str("Another error occured"),
    }
}

} // verus!
