//! The passphrase session: the passphrase is kept in memory after it was
//! entered and forgotten after a period of inactivity or an explicit lock.
use vstd::prelude::*;
use age::secrecy::ExposeSecret;
use crate::errors::{AppError, AppResult, CryptoError};
use crate::util::{str_chars, str_eq};

verus! {

/// A passphrase held as the encryption library's `SecretString`, which
/// wipes it from memory when dropped. The secret type's trait bound keeps
/// it out of verified signatures, so it is held here whole, and its text is
/// named by [`passphrase_text`].
#[verifier::external_body]
pub struct Passphrase {
    pub(crate) secret: age::secrecy::SecretString,
}

/// The text a passphrase holds.
pub uninterp spec fn passphrase_text(p: Passphrase) -> Seq<char>;

impl Passphrase {
    /// `SecretString::new`: takes ownership of the passphrase text, which
    /// it then holds.
    #[verifier::external_body]
    pub fn new(text: String) -> (r: Passphrase)
        ensures
            passphrase_text(r) == text@,
    {
        Passphrase { secret: age::secrecy::SecretString::new(text) }
    }

    /// `ExposeSecret::expose_secret`: the text the passphrase holds, for
    /// handing it to the encryption and database layers.
    #[verifier::external_body]
    pub fn expose(&self) -> (r: &str)
        ensures
            r@ == passphrase_text(*self),
    {
        self.secret.expose_secret().as_str()
    }
}

#[verifier::external_type_specification]
#[verifier::external_body]
pub struct ExInstant(std::time::Instant);

/// `Instant::now()`: the current instant of the monotonic clock; nothing is
/// known of it.
#[verifier::external_body]
fn instant_now() -> (r: std::time::Instant) {
    std::time::Instant::now()
}

/// `Instant::elapsed` in whole seconds: how long ago `since` was, by the
/// monotonic clock. The answer depends on the clock; nothing is known of it.
#[verifier::external_body]
fn elapsed_secs(since: &std::time::Instant) -> (r: u64) {
    since.elapsed().as_secs()
}

/// Whether an inactivity period of `timeout_secs` seconds has passed after
/// `elapsed_secs` seconds without use.
pub fn timed_out(elapsed_secs: u64, timeout_secs: u64) -> (r: bool)
    ensures
        r == (elapsed_secs >= timeout_secs),
{
    elapsed_secs >= timeout_secs
}

/// Keeps the passphrase of the journal while the session is unlocked.
pub struct SessionManager {
    passphrase: Option<Passphrase>,
    last_access: Option<std::time::Instant>,
    timeout_secs: u64,
}

impl SessionManager {
    /// The stored passphrase, if any.
    pub closed spec fn stored(&self) -> Option<Passphrase> {
        self.passphrase
    }

    /// Whether a passphrase is stored.
    pub closed spec fn has_secret(&self) -> bool {
        self.passphrase is Some
    }

    /// Whether a passphrase is held, with the time of its last use.
    pub closed spec fn holds_passphrase(&self) -> bool {
        self.passphrase is Some && self.last_access is Some
    }

    /// The inactivity period, in seconds, after which the session locks.
    pub closed spec fn timeout(&self) -> nat {
        self.timeout_secs as nat
    }

    /// A locked session that locks again `timeout_minutes` minutes after
    /// its last use.
    pub fn new(timeout_minutes: u64) -> (r: SessionManager)
        requires
            timeout_minutes * 60 <= u64::MAX,
        ensures
            !r.holds_passphrase(),
            r.stored() is None,
            r.timeout() == timeout_minutes * 60,
            forall|e: int| #[trigger] r.locked_after(e),
    {
        SessionManager { passphrase: None, last_access: None, timeout_secs: timeout_minutes * 60 }
    }

    /// Unlocks the session with a passphrase; the inactivity period starts
    /// now.
    pub fn unlock(&mut self, passphrase: Passphrase)
        ensures
            final(self).holds_passphrase(),
            final(self).stored() == Some(passphrase),
            final(self).timeout() == old(self).timeout(),
            forall|e: int| #[trigger] final(self).locked_after(e) <==> e >= old(self).timeout(),
    {
        self.passphrase = Some(passphrase);
        self.last_access = Some(instant_now());
    }

    /// Whether the session is locked when `elapsed_secs` seconds have passed
    /// since its last use: it holds no passphrase, or the inactivity period
    /// has passed.
    pub open spec fn locked_after(&self, elapsed_secs: int) -> bool {
        !self.holds_passphrase() || elapsed_secs >= self.timeout()
    }

    /// Whether the session is locked `elapsed_secs` seconds after its last
    /// use.
    pub fn is_locked_after(&self, elapsed_secs: u64) -> (r: bool)
        ensures
            r == self.locked_after(elapsed_secs as int),
    {
        match (&self.passphrase, &self.last_access) {
            (Some(_), Some(_)) => timed_out(elapsed_secs, self.timeout_secs),
            _ => true,
        }
    }

    /// Whether the session is locked now: the clock says how long ago it was
    /// last used, and the session is locked after that many seconds as
    /// [`SessionManager::is_locked_after`] decides.
    pub fn is_locked(&self) -> (r: bool)
        ensures
            exists|e: u64| r == self.locked_after(e as int),
            !self.holds_passphrase() ==> r,
            self.timeout() == 0 ==> r,
    {
        match &self.last_access {
            Some(last) => {
                let e = elapsed_secs(last);
                self.is_locked_after(e)
            },
            None => {
                let r = self.is_locked_after(0);
                r
            },
        }
    }

    /// Forgets the passphrase (it is wiped from memory when dropped).
    pub fn lock(&mut self)
        ensures
            !final(self).holds_passphrase(),
            final(self).stored() is None,
            final(self).timeout() == old(self).timeout(),
            forall|e: int| #[trigger] final(self).locked_after(e),
    {
        self.passphrase = None;
        self.last_access = None;
    }

    /// The passphrase `elapsed_secs` seconds after the session's last use:
    /// the stored one if the session is not locked by then.
    pub fn passphrase_after(&self, elapsed_secs: u64) -> (r: AppResult<&Passphrase>)
        ensures
            self.locked_after(elapsed_secs as int) ==> (r matches Err(AppError::Crypto(CryptoError::VaultLocked))),
            !self.locked_after(elapsed_secs as int) ==> (r matches Ok(p) && self.stored() == Some(*p)),
    {
        if self.is_locked_after(elapsed_secs) {
            return Err(AppError::Crypto(CryptoError::VaultLocked));
        }
        match &self.passphrase {
            Some(p) => Ok(p),
            None => Err(AppError::Crypto(CryptoError::VaultLocked)),
        }
    }

    /// The passphrase, if the session is unlocked now: the clock says how
    /// long ago the session was last used, and the result is what
    /// [`SessionManager::passphrase_after`] gives for that many seconds.
    pub fn get_passphrase(&self) -> (r: AppResult<&Passphrase>)
        ensures
            exists|e: u64| {
                &&& self.locked_after(e as int) ==> (r matches Err(AppError::Crypto(CryptoError::VaultLocked)))
                &&& !self.locked_after(e as int) ==> (r matches Ok(p) && self.stored() == Some(*p))
            },
            !self.holds_passphrase() ==> (r matches Err(AppError::Crypto(CryptoError::VaultLocked))),
            self.timeout() == 0 ==> (r matches Err(AppError::Crypto(CryptoError::VaultLocked))),
            r matches Ok(p) ==> self.stored() == Some(*p),
    {
        let e = match &self.last_access {
            Some(last) => elapsed_secs(last),
            None => 0,
        };
        self.passphrase_after(e)
    }

    /// The stored passphrase, whatever time has passed: for the caller that
    /// has just unlocked or touched the session.
    pub fn held_passphrase(&self) -> (r: AppResult<&Passphrase>)
        ensures
            r is Ok <==> self.has_secret(),
            r matches Ok(p) ==> self.stored() == Some(*p),
            r is Err ==> (r matches Err(AppError::Crypto(CryptoError::VaultLocked))),
    {
        match &self.passphrase {
            Some(p) => Ok(p),
            None => Err(AppError::Crypto(CryptoError::VaultLocked)),
        }
    }

    /// Marks the session as used now, restarting the inactivity period.
    pub fn touch(&mut self)
        ensures
            final(self).stored() == old(self).stored(),
            final(self).has_secret() == old(self).has_secret(),
            final(self).holds_passphrase() == old(self).has_secret(),
            final(self).timeout() == old(self).timeout(),
            forall|e: int| #[trigger] final(self).locked_after(e) <==> !old(self).has_secret() || e >= old(self).timeout(),
    {
        self.last_access = Some(instant_now());
    }
}

/// Law of the session's lock: whatever `new`, `unlock`, `lock` and `touch`
/// have done, the session is locked `e` seconds after its last use exactly
/// when it holds no passphrase or `e` is at least its timeout; so a session
/// with a zero timeout is locked at once, and an unlocked session with
/// timeout `t` is open for `e < t` and locked from `t` on.
pub proof fn law_session_locks_after_timeout(s: SessionManager, e: int)
    ensures
        s.locked_after(e) <==> (!s.holds_passphrase() || e >= s.timeout()),
        s.timeout() == 0 && e >= 0 ==> s.locked_after(e),
        s.holds_passphrase() && 0 <= e < s.timeout() ==> !s.locked_after(e),
{
}

/// Where the passphrase of a locked session comes from.
#[derive(Debug, Clone, Copy, PartialEq, Eq, Structural)]
pub enum PassphraseSource {
    /// The test passphrase set in the environment.
    Environment,
    /// A prompt for the passphrase of the existing journal.
    PromptExisting,
    /// A prompt for a new passphrase, entered twice (first run).
    PromptNew,
}

/// Where the passphrase comes from: a test passphrase in the environment
/// first, else a prompt for the existing journal's passphrase if the
/// database exists, else a prompt for a new one.
pub fn passphrase_source(test_passphrase_set: bool, db_exists: bool) -> (r: PassphraseSource)
    ensures
        r == (if test_passphrase_set {
            PassphraseSource::Environment
        } else if db_exists {
            PassphraseSource::PromptExisting
        } else {
            PassphraseSource::PromptNew
        }),
{
    if test_passphrase_set {
        PassphraseSource::Environment
    } else if db_exists {
        PassphraseSource::PromptExisting
    } else {
        PassphraseSource::PromptNew
    }
}

/// Checks a new passphrase and its confirmation: they must be equal and
/// not empty.
pub fn check_new_passphrase(passphrase: &str, confirmation: &str) -> (r: Result<(), CryptoError>)
    ensures
        passphrase@ != confirmation@ ==> (r matches Err(CryptoError::PassphraseMismatch)),
        passphrase@ == confirmation@ && passphrase@.len() == 0 ==> (r matches Err(CryptoError::EmptyPassphrase)),
        passphrase@ == confirmation@ && passphrase@.len() > 0 ==> r is Ok,
{
    if !str_eq(passphrase, confirmation) {
        return Err(CryptoError::PassphraseMismatch);
    }
    if str_chars(passphrase).len() == 0 {
        return Err(CryptoError::EmptyPassphrase);
    }
    Ok(())
}

/// Checks the passphrase entered for an existing journal: it must not be
/// empty.
pub fn check_existing_passphrase(passphrase: &str) -> (r: Result<(), CryptoError>)
    ensures
        passphrase@.len() == 0 ==> (r matches Err(CryptoError::EmptyPassphrase)),
        passphrase@.len() > 0 ==> r is Ok,
{
    if str_chars(passphrase).len() == 0 {
        Err(CryptoError::EmptyPassphrase)
    } else {
        Ok(())
    }
}

} // verus!
