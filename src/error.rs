use vstd::prelude::*;

verus! {

/// Why a session could not be created.
#[derive(Debug)]
pub enum Error {
    /// The device subsystem could not be initialised; the text says why.
    FailedCreatingPembejeo(String),
}

impl Error {
    /// The error as a line of text for the user.
    pub fn to_string(&self) -> (r: String)
        ensures
            match self {
                Error::FailedCreatingPembejeo(m) => r@ == "Failed creating pembejeo: "@ + m@,
            },
    {
        match self {
            Error::FailedCreatingPembejeo(m) => {
                let mut s = String::new();
                s.append("Failed creating pembejeo: ");
                s.append(m.as_str());
                s
            },
        }
    }
}

} // verus!
