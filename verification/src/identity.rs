//! The operating system's identification, joined into one line of text.

use vstd::prelude::*;

verus! {

/// What the operating system reports of itself.
#[derive(Debug)]
pub struct Identity {
    pub sysname: String,
    pub nodename: String,
    pub release: String,
    pub version: String,
    pub machine: String,
}

/// The mathematical value of an [`Identity`].
pub struct IdentityView {
    pub sysname: Seq<char>,
    pub nodename: Seq<char>,
    pub release: Seq<char>,
    pub version: Seq<char>,
    pub machine: Seq<char>,
}

impl View for Identity {
    type V = IdentityView;

    open spec fn view(&self) -> IdentityView {
        IdentityView {
            sysname: self.sysname@,
            nodename: self.nodename@,
            release: self.release@,
            version: self.version@,
            machine: self.machine@,
        }
    }
}

impl IdentityView {
    /// The five fields in their fixed order, with one space between
    /// neighbours and nothing before or after.
    pub open spec fn line(self) -> Seq<char> {
        self.sysname + seq![' '] + self.nodename + seq![' '] + self.release + seq![' ']
            + self.version + seq![' '] + self.machine
    }
}

impl Identity {
    /// Joins the five fields into the line that the window shows.
    pub fn line(&self) -> (text: String)
        ensures
            text@ == self@.line(),
    {
        proof {
            reveal_strlit(" ");
            assert(" "@ =~= seq![' ']);
        }
        let mut text = self.sysname.clone();
        text.append(" ");
        text.append(self.nodename.as_str());
        text.append(" ");
        text.append(self.release.as_str());
        text.append(" ");
        text.append(self.version.as_str());
        text.append(" ");
        text.append(self.machine.as_str());
        text
    }
}

/// The operating system gave no identification.
#[derive(Clone, Copy, Debug, PartialEq, Eq, Structural)]
pub struct SystemError {}

/// `std::io::Error`, the failure that `uname::uname` reports. Nothing is known
/// of what a value of it holds.
#[verifier::external_type_specification]
#[verifier::external_body]
pub struct ExIoError(std::io::Error);

/// Asks the operating system with `uname::uname` and moves the five fields
/// over. Nothing is claimed of the answer: it differs from machine to machine.
#[verifier::external_body]
fn query_uname() -> (r: Result<Identity, std::io::Error>) {
    let info = uname::uname()?;
    Ok(
        Identity {
            sysname: info.sysname,
            nodename: info.nodename,
            release: info.release,
            version: info.version,
            machine: info.machine,
        },
    )
}

/// The line to show for what the operating system answered.
pub fn identity_line(answer: Result<Identity, std::io::Error>) -> (r: Result<String, SystemError>)
    ensures
        match answer {
            Ok(identity) => r is Ok && r->Ok_0@ == identity@.line(),
            Err(_) => r == Err::<String, SystemError>(SystemError {  }),
        },
{
    match answer {
        Ok(identity) => Ok(identity.line()),
        Err(_) => Err(SystemError {  }),
    }
}

/// Reads the identification of the running system as one line: system name,
/// node name, release, version and machine, in this order, one space apart.
pub fn get_uname() -> (r: Result<String, SystemError>)
    ensures
        r matches Ok(text) ==> exists|identity: IdentityView| text@ == #[trigger] identity.line(),
{
    let answer = query_uname();
    let ghost seen = answer;
    let r = identity_line(answer);
    proof {
        if seen is Ok {
            assert(r->Ok_0@ == seen->Ok_0@.line());
        }
    }
    r
}

} // verus!
