use vstd::prelude::*;
use vstd::slice::{slice_subrange, slice_to_vec};

use crate::error::ErrorCode;
use crate::menu::MenuAction;
use crate::path::{get_path, path_from_bytes, path_is_valid, PATH_DATA_LEN};
use crate::settings::Settings;
use crate::signer::{append_effect, idle_session, scheme_of_byte, Scheme, SignRequest, Signer, SignerView};

verus! {

/// Class byte of every command of this application.
pub const APDU_CLA: u8 = 0x89;

pub const INS_GET_VERSION: u8 = 0x00;
pub const INS_GET_PUBLIC_KEY: u8 = 0x01;
pub const INS_SIGN: u8 = 0x02;
pub const INS_QUIT: u8 = 0xFF;

/// Sub-commands of `INS_SIGN`, carried in p1.
pub const COMMAND_START: u8 = 0x00;
pub const COMMAND_APPEND: u8 = 0x01;
pub const COMMAND_FINALIZE: u8 = 0x02;

/// p1 of `INS_GET_PUBLIC_KEY` asking for on-screen confirmation.
pub const MODE_INTERACTIVE: u8 = 0x01;

/// Entries of the main menu; `Settings(true)` is inside the settings submenu.
#[derive(Clone, Copy, Debug, PartialEq, Eq, Structural, Default)]
pub enum MainMenu {
    #[default]
    AppReady,
    Version,
    Settings(bool),
    Quit,
}

/// The application state: its menus, its settings, the signing session and
/// the version it reports, or the error met while reading that version.
pub struct App {
    pub menu: MainMenu,
    pub settings: Settings,
    pub signer: Signer,
    pub version: Result<(u16, u16, u16), ErrorCode>,
}

/// What the application does after a command was accepted.
pub enum Action {
    /// Send these bytes, then the success status.
    Reply(Vec<u8>),
    /// Derive the key of `scheme` along `path`, encode it with
    /// `Signer::get_public_key` and send it.
    PublicKey { scheme: Scheme, path: [u32; 5] },
    /// Sign the request with the backend and send the signature.
    Sign(SignRequest),
    /// Leave the application without a reply.
    Quit,
}

/// An `Action` over mathematical values.
pub enum ActionView {
    Reply(Seq<u8>),
    PublicKey { scheme: Scheme, path: Seq<u32> },
    Sign { scheme: Scheme, path: Seq<u32>, message: Seq<u8> },
    Quit,
}

impl View for Action {
    type V = ActionView;

    open spec fn view(&self) -> ActionView {
        match self {
            Action::Reply(d) => ActionView::Reply(d@),
            Action::PublicKey { scheme, path } => ActionView::PublicKey { scheme: *scheme, path: path@ },
            Action::Sign(q) => ActionView::Sign {
                scheme: q.scheme,
                path: q.path@,
                message: q.message@,
            },
            Action::Quit => ActionView::Quit,
        }
    }
}

/// The outcome of a command over mathematical values.
pub open spec fn outcome_view(r: Result<Action, ErrorCode>) -> Result<ActionView, ErrorCode> {
    match r {
        Ok(a) => Ok(a@),
        Err(e) => Err(e),
    }
}

/// The two big-endian bytes of `x`.
pub open spec fn be16(x: u16) -> Seq<u8> {
    seq![(x / 0x100) as u8, (x % 0x100) as u8]
}

/// The reply to `INS_GET_VERSION`: major, minor and patch, big-endian.
pub open spec fn version_reply(v: (u16, u16, u16)) -> Seq<u8> {
    be16(v.0) + be16(v.1) + be16(v.2)
}

/// The data region of a command: the bytes after the length byte, as many as
/// it gives. Empty when the command stops after its four header bytes; none
/// when fewer bytes arrived than the length byte announces.
pub open spec fn command_data(apdu: Seq<u8>) -> Option<Seq<u8>> {
    if apdu.len() <= 4 {
        Some(Seq::empty())
    } else if 5 + apdu[4] <= apdu.len() {
        Some(apdu.subrange(5, 5 + apdu[4]))
    } else {
        None
    }
}

/// Clears the session, then sets the scheme from p2 and the path from the
/// command data, stopping at the first failure.
pub open spec fn start_session(p2: u8, data: Option<Seq<u8>>) -> (SignerView, Result<(), ErrorCode>) {
    let idle = idle_session();
    match scheme_of_byte(p2) {
        None => (idle, Err(ErrorCode::BadP1P2)),
        Some(scheme) => {
            let s = SignerView { scheme, ..idle };
            match data {
                None => (s, Err(ErrorCode::BadLen)),
                Some(d) => if d.len() != PATH_DATA_LEN {
                    (s, Err(ErrorCode::BadLen))
                } else if !path_is_valid(path_from_bytes(d)) {
                    (s, Err(ErrorCode::BadPath))
                } else {
                    (SignerView { path: path_from_bytes(d), ..s }, Ok(()))
                },
            }
        },
    }
}

/// The effect of the instruction `INS_SIGN` with sub-command `p1` on session `s`.
pub open spec fn sign_effect(s: SignerView, p1: u8, p2: u8, data: Option<Seq<u8>>) -> (
    SignerView,
    Result<ActionView, ErrorCode>,
) {
    if p1 == COMMAND_START {
        let (t, r) = start_session(p2, data);
        match r {
            Ok(_) => (t, Ok(ActionView::Reply(Seq::empty()))),
            Err(e) => (t, Err(e)),
        }
    } else if p1 == COMMAND_APPEND {
        match data {
            None => (s, Err(ErrorCode::BadLen)),
            Some(d) => {
                let (t, r) = append_effect(s, d);
                match r {
                    Ok(_) => (t, Ok(ActionView::Reply(Seq::empty()))),
                    Err(e) => (t, Err(e)),
                }
            },
        }
    } else if p1 == COMMAND_FINALIZE {
        if path_is_valid(s.path) {
            (
                idle_session(),
                Ok(ActionView::Sign { scheme: s.scheme, path: s.path, message: s.message }),
            )
        } else {
            (s, Err(ErrorCode::BadPath))
        }
    } else {
        (s, Err(ErrorCode::BadP1P2))
    }
}

/// The session after a command and the command's outcome, for a session `s`
/// and the command bytes `apdu`: class, instruction, p1, p2, length, data.
pub open spec fn command_effect(s: SignerView, version: Result<(u16, u16, u16), ErrorCode>, apdu: Seq<u8>) -> (
    SignerView,
    Result<ActionView, ErrorCode>,
) {
    if apdu.len() == 0 {
        (s, Err(ErrorCode::NothingReceived))
    } else if apdu[0] != APDU_CLA {
        (s, Err(ErrorCode::BadCla))
    } else if apdu.len() < 4 {
        (s, Err(ErrorCode::BadLen))
    } else {
        let ins = apdu[1];
        let p1 = apdu[2];
        let p2 = apdu[3];
        if ins == INS_GET_VERSION {
            match version {
                Ok(v) => (s, Ok(ActionView::Reply(version_reply(v)))),
                Err(e) => (s, Err(e)),
            }
        } else if ins == INS_GET_PUBLIC_KEY {
            if p1 == MODE_INTERACTIVE {
                (idle_session(), Err(ErrorCode::Unimplemented))
            } else {
                let (t, r) = start_session(p2, command_data(apdu));
                match r {
                    Err(e) => (t, Err(e)),
                    Ok(_) => (t, Ok(ActionView::PublicKey { scheme: t.scheme, path: t.path })),
                }
            }
        } else if ins == INS_SIGN {
            sign_effect(s, p1, p2, command_data(apdu))
        } else if ins == INS_QUIT {
            (s, Ok(ActionView::Quit))
        } else {
            (s, Err(ErrorCode::BadIns))
        }
    }
}

/// A command whose class byte is not this application's fails with `BadCla`
/// and leaves the session alone, whatever its instruction.
pub proof fn lemma_foreign_class_refused(s: SignerView, version: Result<(u16, u16, u16), ErrorCode>, apdu: Seq<u8>)
    requires
        apdu.len() > 0,
        apdu[0] != APDU_CLA,
    ensures
        command_effect(s, version, apdu) == (s, Err::<ActionView, ErrorCode>(ErrorCode::BadCla)),
{
}

/// A command that carries a path (GetPublicKey outside interactive mode, or
/// Start) with a valid scheme fails with `BadLen` when its path data is not
/// exactly twenty bytes, before the path policy is looked at.
pub proof fn lemma_path_length_checked_first(s: SignerView, version: Result<(u16, u16, u16), ErrorCode>, apdu: Seq<u8>)
    requires
        apdu.len() >= 4,
        apdu[0] == APDU_CLA,
        (apdu[1] == INS_GET_PUBLIC_KEY && apdu[2] != MODE_INTERACTIVE) || (apdu[1] == INS_SIGN
            && apdu[2] == COMMAND_START),
        scheme_of_byte(apdu[3]) is Some,
        !(command_data(apdu) matches Some(d) && d.len() == PATH_DATA_LEN),
    ensures
        command_effect(s, version, apdu).1 == Err::<ActionView, ErrorCode>(ErrorCode::BadLen),
{
}

/// GetPublicKey in interactive mode fails with `Unimplemented` whatever its
/// scheme byte and path data, and leaves the session idle.
pub proof fn lemma_interactive_unimplemented(s: SignerView, version: Result<(u16, u16, u16), ErrorCode>, apdu: Seq<u8>)
    requires
        apdu.len() >= 4,
        apdu[0] == APDU_CLA,
        apdu[1] == INS_GET_PUBLIC_KEY,
        apdu[2] == MODE_INTERACTIVE,
    ensures
        command_effect(s, version, apdu) == (
            idle_session(),
            Err::<ActionView, ErrorCode>(ErrorCode::Unimplemented),
        ),
{
}

/// Finalize on a session whose path was cleared, for instance right after
/// another Finalize, fails with `BadPath` and changes nothing.
pub proof fn lemma_finalize_after_clear(s: SignerView, version: Result<(u16, u16, u16), ErrorCode>, apdu: Seq<u8>)
    requires
        s.path == idle_session().path,
        apdu.len() >= 4,
        apdu[0] == APDU_CLA,
        apdu[1] == INS_SIGN,
        apdu[2] == COMMAND_FINALIZE,
    ensures
        command_effect(s, version, apdu) == (s, Err::<ActionView, ErrorCode>(ErrorCode::BadPath)),
{
    crate::signer::lemma_cleared_path_rejected(s);
}

/// A successful Finalize leaves the session idle, so a second Finalize
/// without a new Start fails with `BadPath`.
pub proof fn lemma_finalize_ends_session(s: SignerView, version: Result<(u16, u16, u16), ErrorCode>, apdu: Seq<u8>)
    requires
        apdu.len() >= 4,
        apdu[0] == APDU_CLA,
        apdu[1] == INS_SIGN,
        apdu[2] == COMMAND_FINALIZE,
        command_effect(s, version, apdu).1 is Ok,
    ensures
        command_effect(s, version, apdu).0 == idle_session(),
        command_effect(command_effect(s, version, apdu).0, version, apdu) == (
            idle_session(),
            Err::<ActionView, ErrorCode>(ErrorCode::BadPath),
        ),
{
    lemma_finalize_after_clear(command_effect(s, version, apdu).0, version, apdu);
}

/// The entry after `m` in the main menu, which wraps around.
pub open spec fn main_next(m: MainMenu) -> MainMenu {
    match m {
        MainMenu::AppReady => MainMenu::Version,
        MainMenu::Version => MainMenu::Settings(false),
        MainMenu::Settings(_) => MainMenu::Quit,
        MainMenu::Quit => MainMenu::AppReady,
    }
}

/// The entry before `m` in the main menu, which wraps around.
pub open spec fn main_prev(m: MainMenu) -> MainMenu {
    match m {
        MainMenu::AppReady => MainMenu::Quit,
        MainMenu::Version => MainMenu::AppReady,
        MainMenu::Settings(_) => MainMenu::Version,
        MainMenu::Quit => MainMenu::Settings(false),
    }
}

/// Writes `x` into `out` big-endian.
fn push_be16(out: &mut Vec<u8>, x: u16)
    ensures
        final(out)@ == old(out)@ + be16(x),
{
    out.push((x / 0x100) as u8);
    out.push((x % 0x100) as u8);
    assert(final(out)@ =~= old(out)@ + be16(x));
}

/// The data region of `apdu`, or `BadLen` when it is cut short.
fn data_region(apdu: &[u8]) -> (r: Result<&[u8], ErrorCode>)
    ensures
        match command_data(apdu@) {
            Some(d) => r matches Ok(x) && x@ == d,
            None => r == Err::<&[u8], ErrorCode>(ErrorCode::BadLen),
        },
{
    if apdu.len() <= 4 {
        return Ok(slice_subrange(apdu, 0, 0));
    }
    let len = apdu[4] as usize;
    if len > apdu.len() - 5 {
        return Err(ErrorCode::BadLen);
    }
    Ok(slice_subrange(apdu, 5, 5 + len))
}

impl App {
    /// A fresh application on its first menu entry, reporting `version`; when
    /// the version could not be read, GetVersion fails with that error.
    pub fn new(version: Result<(u16, u16, u16), ErrorCode>) -> (a: App)
        ensures
            a.menu == MainMenu::AppReady,
            a.signer@ == idle_session(),
            a.version == version,
    {
        App { menu: MainMenu::AppReady, settings: Settings::new(), signer: Signer::new(), version }
    }

    /// Clears the session and loads scheme and path from a command, as
    /// GetPublicKey and Start do.
    fn load_session(&mut self, p2: u8, data: Result<&[u8], ErrorCode>) -> (r: Result<(), ErrorCode>)
        requires
            data is Err ==> data == Err::<&[u8], ErrorCode>(ErrorCode::BadLen),
        ensures
            (final(self).signer@, r) == start_session(
                p2,
                match data {
                    Ok(d) => Some(d@),
                    Err(_) => None,
                },
            ),
            final(self).menu == old(self).menu,
            final(self).settings == old(self).settings,
            final(self).version == old(self).version,
    {
        self.signer.clear();
        self.signer.set_scheme(p2)?;
        let data = match data {
            Ok(d) => d,
            Err(e) => return Err(e),
        };
        let path = match get_path(data) {
            Ok(p) => p,
            Err(e) => return Err(e),
        };
        self.signer.set_path(path)
    }

    /// Handles one command, given as the bytes received: checks its header,
    /// runs it against the signing session and says what to send back.
    pub fn handle_command(&mut self, apdu: &[u8]) -> (r: Result<Action, ErrorCode>)
        ensures
            (final(self).signer@, outcome_view(r)) == command_effect(
                old(self).signer@,
                old(self).version,
                apdu@,
            ),
            final(self).menu == old(self).menu,
            final(self).settings == old(self).settings,
            final(self).version == old(self).version,
    {
        if apdu.len() == 0 {
            return Err(ErrorCode::NothingReceived);
        }
        if apdu[0] != APDU_CLA {
            return Err(ErrorCode::BadCla);
        }
        if apdu.len() < 4 {
            return Err(ErrorCode::BadLen);
        }
        let ins = apdu[1];
        let p1 = apdu[2];
        let p2 = apdu[3];
        if ins == INS_GET_VERSION {
            let version = match self.version {
                Ok(v) => v,
                Err(e) => return Err(e),
            };
            let mut out: Vec<u8> = Vec::new();
            push_be16(&mut out, version.0);
            push_be16(&mut out, version.1);
            push_be16(&mut out, version.2);
            assert(out@ =~= version_reply(version));
            Ok(Action::Reply(out))
        } else if ins == INS_GET_PUBLIC_KEY {
            if p1 == MODE_INTERACTIVE {
                self.signer.clear();
                return Err(ErrorCode::Unimplemented);
            }
            self.load_session(p2, data_region(apdu))?;
            Ok(Action::PublicKey { scheme: self.signer.scheme(), path: self.signer.path() })
        } else if ins == INS_SIGN {
            if p1 == COMMAND_START {
                self.load_session(p2, data_region(apdu))?;
                Ok(Action::Reply(Vec::new()))
            } else if p1 == COMMAND_APPEND {
                let data = data_region(apdu)?;
                self.signer.append_message(data)?;
                Ok(Action::Reply(Vec::new()))
            } else if p1 == COMMAND_FINALIZE {
                let request = self.signer.sign()?;
                self.signer.clear();
                Ok(Action::Sign(request))
            } else {
                Err(ErrorCode::BadP1P2)
            }
        } else if ins == INS_QUIT {
            Ok(Action::Quit)
        } else {
            Err(ErrorCode::BadIns)
        }
    }

    /// Moves to the previous entry, inside the settings when they are open.
    pub fn prev(&mut self)
        ensures
            old(self).menu == MainMenu::Settings(true) ==> final(self).menu == old(self).menu
                && final(self).settings.menu == crate::settings::other_entry(
                old(self).settings.menu,
            ),
            old(self).menu != MainMenu::Settings(true) ==> final(self).menu == main_prev(
                old(self).menu,
            ) && final(self).settings == old(self).settings,
            final(self).settings.debug_mode == old(self).settings.debug_mode,
            final(self).signer == old(self).signer,
    {
        match self.menu {
            MainMenu::AppReady => self.menu = MainMenu::Quit,
            MainMenu::Version => self.menu = MainMenu::AppReady,
            MainMenu::Settings(true) => self.settings.prev(),
            MainMenu::Settings(false) => self.menu = MainMenu::Version,
            MainMenu::Quit => self.menu = MainMenu::Settings(false),
        }
    }

    /// Moves to the next entry, inside the settings when they are open.
    pub fn next(&mut self)
        ensures
            old(self).menu == MainMenu::Settings(true) ==> final(self).menu == old(self).menu
                && final(self).settings.menu == crate::settings::other_entry(
                old(self).settings.menu,
            ),
            old(self).menu != MainMenu::Settings(true) ==> final(self).menu == main_next(
                old(self).menu,
            ) && final(self).settings == old(self).settings,
            final(self).settings.debug_mode == old(self).settings.debug_mode,
            final(self).signer == old(self).signer,
    {
        match self.menu {
            MainMenu::AppReady => self.menu = MainMenu::Version,
            MainMenu::Version => self.menu = MainMenu::Settings(false),
            MainMenu::Settings(true) => self.settings.next(),
            MainMenu::Settings(false) => self.menu = MainMenu::Quit,
            MainMenu::Quit => self.menu = MainMenu::AppReady,
        }
    }

    /// Confirms the entry shown: opens the settings, acts inside them and
    /// closes them when they ask to exit, or asks to quit from `Quit`.
    pub fn action(&mut self) -> (a: MenuAction)
        ensures
            old(self).menu == MainMenu::Quit ==> a == MenuAction::Exit && *final(self) == *old(
                self,
            ),
            (old(self).menu == MainMenu::AppReady || old(self).menu == MainMenu::Version) ==> a
                == MenuAction::Nothing && *final(self) == *old(self),
            old(self).menu == MainMenu::Settings(false) ==> a == MenuAction::Update
                && final(self).menu == MainMenu::Settings(true) && final(self).settings
                == old(self).settings,
            old(self).menu == MainMenu::Settings(true) ==> a == MenuAction::Update && (
            if old(self).settings.menu == crate::settings::SettingsMenu::Back {
                final(self).menu == MainMenu::Settings(false) && final(self).settings.menu
                    == crate::settings::SettingsMenu::DebugMode && final(self).settings.debug_mode
                    == old(self).settings.debug_mode
            } else {
                final(self).menu == old(self).menu && final(self).settings.menu == old(
                    self,
                ).settings.menu && final(self).settings.debug_mode
                    == !old(self).settings.debug_mode
            }),
            final(self).signer == old(self).signer,
            final(self).version == old(self).version,
    {
        match self.menu {
            MainMenu::Settings(settings) => {
                if settings {
                    let action = self.settings.action();
                    if action == MenuAction::Exit {
                        self.menu = MainMenu::Settings(false);
                    }
                } else {
                    self.menu = MainMenu::Settings(true);
                }
                MenuAction::Update
            },
            MainMenu::Quit => MenuAction::Exit,
            _ => MenuAction::Nothing,
        }
    }
}

} // verus!
