//! The manager's SSH key pair and the secret that holds it.

use crate::errors::{refusal, ApiFailure, ApiFailureView, TaskError, TaskErrorView};
use vstd::prelude::*;
use vstd::string::StringExecFns;

verus! {

/// The name of the secret that holds the key pair.
pub const KEY_NAME: &'static str = "admin-key";

/// The reason of a refusal that says the secret does not exist.
pub const REASON_NOT_FOUND: &'static str = "NotFound";

/// A key pair in the text form that `ssh-keygen` writes.
#[derive(Debug, PartialEq, Eq)]
pub struct KeyPair {
    pub private_key: String,
    pub public_key: String,
}

/// An entry of a secret: a name and the text stored under it.
#[derive(Debug, PartialEq, Eq)]
pub struct SecretEntry {
    pub name: String,
    pub text: String,
}

impl DeepView for SecretEntry {
    type V = (Seq<char>, Seq<char>);

    open spec fn deep_view(&self) -> (Seq<char>, Seq<char>) {
        (self.name@, self.text@)
    }
}

/// A secret to be created: its name and its entries.
#[derive(Debug, PartialEq, Eq)]
pub struct SecretManifest {
    pub name: String,
    pub string_data: Vec<SecretEntry>,
}

pub struct SecretManifestView {
    pub name: Seq<char>,
    pub string_data: Seq<(Seq<char>, Seq<char>)>,
}

impl View for SecretManifest {
    type V = SecretManifestView;

    open spec fn view(&self) -> SecretManifestView {
        SecretManifestView { name: self.name@, string_data: self.string_data.deep_view() }
    }
}

/// The secret named `name` that holds a key pair: the private key under
/// `private_key`, the public key under `public_key`.
pub open spec fn key_secret(
    name: Seq<char>,
    private_key: Seq<char>,
    public_key: Seq<char>,
) -> SecretManifestView {
    SecretManifestView {
        name,
        string_data: seq![("private_key"@, private_key), ("public_key"@, public_key)],
    }
}

/// Describes the secret named `name` that stores `keypair`.
pub fn create_secret(name: &str, keypair: KeyPair) -> (secret: SecretManifest)
    ensures
        secret@ == key_secret(name@, keypair.private_key@, keypair.public_key@),
{
    let string_data = vec![
        SecretEntry { name: String::from_str("private_key"), text: keypair.private_key },
        SecretEntry { name: String::from_str("public_key"), text: keypair.public_key },
    ];
    assert(string_data.deep_view() =~= seq![
        ("private_key"@, keypair.private_key@),
        ("public_key"@, keypair.public_key@),
    ]);
    SecretManifest { name: String::from_str(name), string_data }
}

/// The arguments with which `ssh-keygen` writes a new key pair without a
/// passphrase to the file `key_file` and, beside it, the public key.
pub open spec fn keygen_arguments(key_file: Seq<char>) -> Seq<Seq<char>> {
    seq!["-t"@, "ed25519"@, "-N"@, ""@, "-C"@, "cluster-admin"@, "-f"@, key_file]
}

/// Builds the arguments of the `ssh-keygen` call that writes the manager's
/// key pair to `key_file`.
pub fn generate_ssh_keypair(key_file: &str) -> (arguments: Vec<String>)
    ensures
        arguments.deep_view() == keygen_arguments(key_file@),
{
    let arguments = vec![
        String::from_str("-t"),
        String::from_str("ed25519"),
        String::from_str("-N"),
        String::from_str(""),
        String::from_str("-C"),
        String::from_str("cluster-admin"),
        String::from_str("-f"),
        String::from_str(key_file),
    ];
    assert(arguments.deep_view() =~= keygen_arguments(key_file@));
    arguments
}

/// What to do about the key once its secret has been looked up.
#[derive(Debug, PartialEq, Eq)]
pub enum KeyAction {
    /// Nothing: the secret exists.
    Keep,
    /// Generate a key pair and store it in the secret named [`KEY_NAME`];
    /// then report the refusal of the lookup all the same.
    Create(ApiFailure),
    /// Give up with this error.
    Fail(TaskError),
}

pub enum KeyActionView {
    Keep,
    Create(ApiFailureView),
    Fail(TaskErrorView),
}

impl View for KeyAction {
    type V = KeyActionView;

    open spec fn view(&self) -> KeyActionView {
        match self {
            KeyAction::Keep => KeyActionView::Keep,
            KeyAction::Create(f) => KeyActionView::Create(f@),
            KeyAction::Fail(e) => KeyActionView::Fail(e@),
        }
    }
}

/// The action that a lookup of the key's secret calls for: none if the
/// secret was found, the creation of the key if the secret does not exist,
/// and failure on any other refusal.
pub open spec fn key_action(lookup: Option<ApiFailureView>) -> KeyActionView {
    match lookup {
        None => KeyActionView::Keep,
        Some(refusal) => if refusal.reason == REASON_NOT_FOUND@ {
            KeyActionView::Create(refusal)
        } else {
            KeyActionView::Fail(TaskErrorView::Transport(refusal))
        },
    }
}

/// Decides what to do about the manager's key, given how the lookup of its
/// secret ended.
pub fn ensure_ssh_key(lookup: Result<(), ApiFailure>) -> (action: KeyAction)
    ensures
        action@ == key_action(refusal(lookup)),
{
    match lookup {
        Ok(_) => KeyAction::Keep,
        Err(refusal) => {
            if refusal.reason == String::from_str(REASON_NOT_FOUND) {
                KeyAction::Create(refusal)
            } else {
                KeyAction::Fail(TaskError::Transport(refusal))
            }
        },
    }
}

/// What the creation of the key ended with.
#[derive(Debug, PartialEq, Eq)]
pub enum KeyCreation {
    /// The key pair could not be generated; the text says why.
    NotGenerated(String),
    /// The key pair was generated, and the API server refused the secret.
    NotStored(ApiFailure),
    /// The key pair was generated and stored.
    Stored,
}

pub enum KeyCreationView {
    NotGenerated(Seq<char>),
    NotStored(ApiFailureView),
    Stored,
}

impl View for KeyCreation {
    type V = KeyCreationView;

    open spec fn view(&self) -> KeyCreationView {
        match self {
            KeyCreation::NotGenerated(why) => KeyCreationView::NotGenerated(why@),
            KeyCreation::NotStored(f) => KeyCreationView::NotStored(f@),
            KeyCreation::Stored => KeyCreationView::Stored,
        }
    }
}

/// The error that the bootstrap step ends with after the key was asked to
/// be created: the first thing that went wrong, and the refusal of the
/// lookup where nothing did.
pub open spec fn key_created_error(
    missing: ApiFailureView,
    creation: KeyCreationView,
) -> TaskErrorView {
    match creation {
        KeyCreationView::NotGenerated(why) => TaskErrorView::KeyGeneration(why),
        KeyCreationView::NotStored(f) => TaskErrorView::Transport(f),
        KeyCreationView::Stored => TaskErrorView::Transport(missing),
    }
}

/// Ends the bootstrap step after the creation of the key. The step ends with
/// an error in every case: a key that was just stored is found by the next
/// run.
pub fn key_created(missing: ApiFailure, creation: KeyCreation) -> (error: TaskError)
    ensures
        error@ == key_created_error(missing@, creation@),
{
    match creation {
        KeyCreation::NotGenerated(why) => TaskError::KeyGeneration(why),
        KeyCreation::NotStored(refusal) => TaskError::Transport(refusal),
        KeyCreation::Stored => TaskError::Transport(missing),
    }
}

} // verus!
