//! The local certificate authority: a self-signed CA and a server certificate
//! that it issues, kept as PEM files under `~/.config/zap/proxy-ca/`.
use vstd::prelude::*;
use vstd::string::*;

use crate::text::path_of;

verus! {

/// Where the files of the authority are.
#[derive(Debug, Clone)]
pub struct LocalCA {
    pub dir: String,
    pub ca_cert_path: String,
    pub ca_key_path: String,
    pub server_cert_path: String,
    pub server_key_path: String,
}

/// What a [`LocalCA`] says.
pub struct PathsView {
    pub dir: Seq<char>,
    pub ca_cert_path: Seq<char>,
    pub ca_key_path: Seq<char>,
    pub server_cert_path: Seq<char>,
    pub server_key_path: Seq<char>,
}

impl View for LocalCA {
    type V = PathsView;

    open spec fn view(&self) -> PathsView {
        PathsView {
            dir: self.dir@,
            ca_cert_path: self.ca_cert_path@,
            ca_key_path: self.ca_key_path@,
            server_cert_path: self.server_cert_path@,
            server_key_path: self.server_key_path@,
        }
    }
}

/// The directory of the authority of a home directory.
pub open spec fn ca_dir(home: Seq<char>) -> Seq<char> {
    crate::text::path_join(
        crate::text::path_join(crate::text::path_join(home, ".config"@), "zap"@),
        "proxy-ca"@,
    )
}

/// Where the files of the authority of a home directory are.
pub open spec fn ca_paths(home: Seq<char>) -> PathsView {
    let dir = ca_dir(home);
    PathsView {
        dir,
        ca_cert_path: crate::text::path_join(dir, "ca-cert.pem"@),
        ca_key_path: crate::text::path_join(dir, "ca-key.pem"@),
        server_cert_path: crate::text::path_join(dir, "server-cert.pem"@),
        server_key_path: crate::text::path_join(dir, "server-key.pem"@),
    }
}

impl LocalCA {
    /// The authority of a home directory.
    pub fn in_home(home: &str) -> (r: LocalCA)
        ensures
            r@ == ca_paths(home@),
    {
        let config = path_of(home, ".config");
        let zap = path_of(config.as_str(), "zap");
        let dir = path_of(zap.as_str(), "proxy-ca");
        LocalCA {
            ca_cert_path: path_of(dir.as_str(), "ca-cert.pem"),
            ca_key_path: path_of(dir.as_str(), "ca-key.pem"),
            server_cert_path: path_of(dir.as_str(), "server-cert.pem"),
            server_key_path: path_of(dir.as_str(), "server-key.pem"),
            dir,
        }
    }
}

// ── loading or generating ────────────────────────────────────────────────

/// Which of the four PEM files of an authority are there.
#[derive(Debug, Clone, Copy)]
pub struct FilesPresent {
    pub ca_cert: bool,
    pub ca_key: bool,
    pub server_cert: bool,
    pub server_key: bool,
}

/// How an authority comes about.
#[derive(Debug, Clone, Copy, PartialEq, Eq, Structural)]
pub enum CaPlan {
    /// The files are there and are used as they are.
    Load,
    /// The directory is made, then the files are generated and written.
    Generate,
}

/// How the authority comes about: it is loaded if all four PEM files are
/// there, and generated otherwise.
pub fn ensure_local_ca(present: FilesPresent) -> (r: CaPlan)
    ensures
        r == CaPlan::Load <==> present.ca_cert && present.ca_key && present.server_cert
            && present.server_key,
{
    if present.ca_cert && present.ca_key && present.server_cert && present.server_key {
        CaPlan::Load
    } else {
        CaPlan::Generate
    }
}

// ── certificates ─────────────────────────────────────────────────────────

/// What a certificate may be used for.
#[derive(Debug, Clone, Copy, PartialEq, Eq, Structural)]
pub enum KeyUse {
    DigitalSignature,
    KeyCertSign,
    CrlSign,
}

/// What the holder of a certificate may be used as.
#[derive(Debug, Clone, Copy, PartialEq, Eq, Structural)]
pub enum ExtendedUse {
    ServerAuth,
}

/// Whether the holder of a certificate may sign others.
#[derive(Debug, Clone, Copy, PartialEq, Eq, Structural)]
pub enum Role {
    /// A certificate authority, without limit on the path length.
    Authority,
    EndEntity,
}

/// What a certificate says of its holder.
#[derive(Debug)]
pub struct CertificateProfile {
    pub common_name: String,
    pub alternative_names: Vec<String>,
    pub role: Role,
    pub key_uses: Vec<KeyUse>,
    pub extended_uses: Vec<ExtendedUse>,
}

/// What a [`CertificateProfile`] says.
pub struct ProfileView {
    pub common_name: Seq<char>,
    pub alternative_names: Seq<Seq<char>>,
    pub role: Role,
    pub key_uses: Seq<KeyUse>,
    pub extended_uses: Seq<ExtendedUse>,
}

impl View for CertificateProfile {
    type V = ProfileView;

    open spec fn view(&self) -> ProfileView {
        ProfileView {
            common_name: self.common_name@,
            alternative_names: self.alternative_names@.map_values(|n: String| n@),
            role: self.role,
            key_uses: self.key_uses@,
            extended_uses: self.extended_uses@,
        }
    }
}

/// The profile of the authority.
pub open spec fn authority_profile() -> ProfileView {
    ProfileView {
        common_name: "Zap Local Proxy CA"@,
        alternative_names: Seq::empty(),
        role: Role::Authority,
        key_uses: seq![KeyUse::DigitalSignature, KeyUse::KeyCertSign, KeyUse::CrlSign],
        extended_uses: Seq::empty(),
    }
}

/// The profile of the proxy server: it is reached as `localhost` and `127.0.0.1`.
pub open spec fn server_profile() -> ProfileView {
    ProfileView {
        common_name: "localhost"@,
        alternative_names: seq!["localhost"@, "127.0.0.1"@],
        role: Role::EndEntity,
        key_uses: Seq::empty(),
        extended_uses: seq![ExtendedUse::ServerAuth],
    }
}

/// The parameters of a certificate.
#[verifier::external_type_specification]
#[verifier::external_body]
pub struct ExCertificateParams(rcgen::CertificateParams);

/// A signed certificate.
#[verifier::external_type_specification]
#[verifier::external_body]
pub struct ExCertificate(rcgen::Certificate);

/// A key pair.
#[verifier::external_type_specification]
#[verifier::external_body]
pub struct ExKeyPair(rcgen::KeyPair);

/// A failure that `rcgen` reports.
#[verifier::external_type_specification]
#[verifier::external_body]
pub struct ExRcgenError(rcgen::Error);

/// What a signed certificate states.
pub struct CertificateView {
    pub profile: ProfileView,
    /// The common name of the issuer.
    pub issuer: Seq<char>,
    /// The public key that the certificate binds to the profile, in DER.
    pub public_key: Seq<u8>,
}

/// The profile that certificate parameters hold.
pub uninterp spec fn held_profile(params: rcgen::CertificateParams) -> ProfileView;

/// Whether certificate parameters hold dates that a certificate can carry.
pub uninterp spec fn ordinary_dates(params: rcgen::CertificateParams) -> bool;

/// Whether a key pair holds its private key itself, rather than asking a remote
/// signer.
pub uninterp spec fn local_key(key: rcgen::KeyPair) -> bool;

/// The public key of a key pair, in DER.
pub uninterp spec fn public_key(key: rcgen::KeyPair) -> Seq<u8>;

/// What a certificate states.
pub uninterp spec fn stated(certificate: rcgen::Certificate) -> CertificateView;

/// Whether the signature of a certificate verifies under a public key in DER.
pub uninterp spec fn verifies_under(certificate: rcgen::Certificate, key: Seq<u8>) -> bool;

/// The PEM text of a certificate, with the line ends of the target.
pub uninterp spec fn certificate_pem(certificate: rcgen::Certificate) -> Seq<char>;

/// The PEM text of a key pair, with the line ends of the target.
pub uninterp spec fn key_pem(key: rcgen::KeyPair) -> Seq<char>;

/// A character of the Latin alphabet.
pub open spec fn letter(c: char) -> bool {
    'a' <= c <= 'z' || 'A' <= c <= 'Z'
}

/// Whether an alternative name is a host name, which no text of an address is
/// (those of version 4 have no letters, and those of version 6 have colons), or
/// the address of this machine.
pub open spec fn certifiable_name(name: Seq<char>) -> bool {
    ||| name == "127.0.0.1"@
    ||| {
        &&& forall|i: int| 0 <= i < name.len() ==> (#[trigger] name[i]) as u32 <= 0x7f && name[i] != ':'
        &&& exists|i: int| 0 <= i < name.len() && letter(#[trigger] name[i])
    }
}

/// Whether a certificate states all that a profile says. The key uses of an
/// end entity are written only beside alternative names or extended uses.
pub open spec fn fully_stated(profile: ProfileView) -> bool {
    ||| profile.role == Role::Authority
    ||| profile.key_uses.len() == 0
    ||| profile.alternative_names.len() > 0
    ||| profile.extended_uses.len() > 0
}

/// `CertificateParams::new` with the alternative names of a profile, and its
/// other fields set: the parameters hold the profile, and the dates of the
/// defaults. It does not fail on names in ASCII.
#[verifier::external_body]
fn certificate_params(profile: &CertificateProfile) -> (r: Result<
    rcgen::CertificateParams,
    rcgen::Error,
>)
    requires
        forall|i: int|
            0 <= i < profile@.alternative_names.len() ==> certifiable_name(
                #[trigger] profile@.alternative_names[i],
            ),
    ensures
        match r {
            Ok(params) => held_profile(params) == profile@ && ordinary_dates(params),
            Err(_) => false,
        },
{
    let mut p = rcgen::CertificateParams::new(profile.alternative_names.clone())?;
    p.distinguished_name.push(rcgen::DnType::CommonName, profile.common_name.as_str());
    p.is_ca = match profile.role {
        Role::Authority => rcgen::IsCa::Ca(rcgen::BasicConstraints::Unconstrained),
        Role::EndEntity => rcgen::IsCa::NoCa,
    };
    p.key_usages = profile.key_uses.iter().map(|u| match u {
        KeyUse::DigitalSignature => rcgen::KeyUsagePurpose::DigitalSignature,
        KeyUse::KeyCertSign => rcgen::KeyUsagePurpose::KeyCertSign,
        KeyUse::CrlSign => rcgen::KeyUsagePurpose::CrlSign,
    }).collect();
    p.extended_key_usages = profile.extended_uses.iter()
        .map(|ExtendedUse::ServerAuth| rcgen::ExtendedKeyUsagePurpose::ServerAuth).collect();
    Ok(p)
}

/// `KeyPair::generate`: where it succeeds, some new key pair, which holds its
/// private key. Which one is left to chance.
pub assume_specification[ rcgen::KeyPair::generate ]() -> (r: Result<rcgen::KeyPair, rcgen::Error>)
    ensures
        r matches Ok(key) ==> local_key(key),
;

/// `CertificateParams::self_signed`: where it succeeds, a certificate for the
/// public key of the key pair with the profile of the parameters, under the
/// same name as issuer, signed with the same key pair. Its serial number and
/// signature are left open.
pub assume_specification[ rcgen::CertificateParams::self_signed ](
    params: rcgen::CertificateParams,
    key_pair: &rcgen::KeyPair,
) -> (r: Result<rcgen::Certificate, rcgen::Error>)
    requires
        ordinary_dates(params),
        fully_stated(held_profile(params)),
        local_key(*key_pair),
    ensures
        r matches Ok(certificate) ==> stated(certificate) == (CertificateView {
            profile: held_profile(params),
            issuer: held_profile(params).common_name,
            public_key: public_key(*key_pair),
        }),
        r matches Ok(certificate) ==> verifies_under(certificate, public_key(*key_pair)),
;

/// `CertificateParams::signed_by`: where it succeeds, a certificate for the
/// public key of the key pair with the profile of the parameters, under the
/// issuer's name, signed with the issuer's key pair. Its serial number and
/// signature are left open.
#[verifier::external_body]
fn signed_by(
    params: rcgen::CertificateParams,
    key: &rcgen::KeyPair,
    issuer: &rcgen::Certificate,
    issuer_key: &rcgen::KeyPair,
) -> (r: Result<rcgen::Certificate, rcgen::Error>)
    requires
        ordinary_dates(params),
        fully_stated(held_profile(params)),
        local_key(*key),
        local_key(*issuer_key),
    ensures
        r matches Ok(certificate) ==> stated(certificate) == (CertificateView {
            profile: held_profile(params),
            issuer: stated(*issuer).profile.common_name,
            public_key: public_key(*key),
        }),
        r matches Ok(certificate) ==> verifies_under(certificate, public_key(*issuer_key)),
{
    params.signed_by(key, issuer, issuer_key)
}

/// `Certificate::pem`: the PEM text of the certificate.
pub assume_specification[ rcgen::Certificate::pem ](certificate: &rcgen::Certificate) -> (r: String)
    ensures
        r@ == certificate_pem(*certificate),
;

/// `KeyPair::serialize_pem`: the PEM text of the key pair. It panics on a key
/// pair that does not hold its private key.
pub assume_specification[ rcgen::KeyPair::serialize_pem ](key: &rcgen::KeyPair) -> (r: String)
    requires
        local_key(*key),
    ensures
        r@ == key_pem(*key),
;

/// A certificate with its key pair, which holds the private key.
pub struct Issued {
    certificate: rcgen::Certificate,
    key: rcgen::KeyPair,
}

impl Issued {
    #[verifier::type_invariant]
    spec fn holds_its_key(self) -> bool {
        local_key(self.key)
    }

    /// The certificate.
    pub closed spec fn cert(&self) -> rcgen::Certificate {
        self.certificate
    }

    /// The key pair.
    pub closed spec fn pair(&self) -> rcgen::KeyPair {
        self.key
    }

    pub fn certificate(&self) -> (r: &rcgen::Certificate)
        ensures
            *r == self.cert(),
    {
        &self.certificate
    }

    pub fn key(&self) -> (r: &rcgen::KeyPair)
        ensures
            *r == self.pair(),
            local_key(*r),
    {
        proof {
            use_type_invariant(self);
        }
        &self.key
    }
}

/// A file to write.
#[derive(Debug, Clone, PartialEq, Eq)]
pub struct PemFile {
    pub path: String,
    pub contents: String,
}

/// Why no certificate could be issued.
#[derive(Debug)]
pub enum CaError {
    Certificate(rcgen::Error),
}

/// Whether `files` are the two files of a certificate and its key pair.
pub open spec fn are_files_of(
    files: Seq<PemFile>,
    cert_path: Seq<char>,
    key_path: Seq<char>,
    issued: Issued,
) -> bool {
    &&& files.len() == 2
    &&& files[0].path@ == cert_path
    &&& files[0].contents@ == certificate_pem(issued.cert())
    &&& files[1].path@ == key_path
    &&& files[1].contents@ == key_pem(issued.pair())
}

fn files_of(cert_path: &str, key_path: &str, issued: &Issued) -> (r: Vec<PemFile>)
    ensures
        are_files_of(r@, cert_path@, key_path@, *issued),
{
    proof {
        use_type_invariant(issued);
    }
    let mut files: Vec<PemFile> = Vec::new();
    files.push(PemFile { path: cert_path.to_string(), contents: issued.certificate.pem() });
    files.push(PemFile { path: key_path.to_string(), contents: issued.key.serialize_pem() });
    files
}

/// What is issued when a certificate for `key` was to be signed: the signed
/// certificate with its key pair, and their files; or the failure to sign it.
pub fn issue_signed(
    cert_path: &str,
    key_path: &str,
    signed: Result<rcgen::Certificate, rcgen::Error>,
    key: rcgen::KeyPair,
) -> (r: Result<(Issued, Vec<PemFile>), CaError>)
    requires
        local_key(key),
    ensures
        match signed {
            Ok(certificate) => r is Ok && r->Ok_0.0.cert() == certificate && r->Ok_0.0.pair() == key
                && are_files_of(r->Ok_0.1@, cert_path@, key_path@, r->Ok_0.0),
            Err(e) => r is Err && r->Err_0 == CaError::Certificate(e),
        },
{
    match signed {
        Ok(certificate) => {
            let issued = Issued { certificate, key };
            let files = files_of(cert_path, key_path, &issued);
            Ok((issued, files))
        },
        Err(e) => Err(CaError::Certificate(e)),
    }
}

/// Issue the certificate of the authority, which signs itself. Gives the
/// certificate and the files to write.
pub fn issue_authority(ca: &LocalCA) -> (r: Result<(Issued, Vec<PemFile>), CaError>)
    ensures
        match r {
            Ok((issued, files)) => {
                &&& stated(issued.cert()) == CertificateView {
                    profile: authority_profile(),
                    issuer: "Zap Local Proxy CA"@,
                    public_key: public_key(issued.pair()),
                }
                &&& verifies_under(issued.cert(), public_key(issued.pair()))
                &&& are_files_of(files@, ca@.ca_cert_path, ca@.ca_key_path, issued)
            },
            Err(_) => true,
        },
{
    let mut key_uses: Vec<KeyUse> = Vec::new();
    key_uses.push(KeyUse::DigitalSignature);
    key_uses.push(KeyUse::KeyCertSign);
    key_uses.push(KeyUse::CrlSign);
    let profile = CertificateProfile {
        common_name: "Zap Local Proxy CA".to_string(),
        alternative_names: Vec::new(),
        role: Role::Authority,
        key_uses,
        extended_uses: Vec::new(),
    };
    assert(profile@.alternative_names =~= authority_profile().alternative_names);
    assert(profile@.key_uses =~= authority_profile().key_uses);
    assert(profile@.extended_uses =~= authority_profile().extended_uses);
    let params = match certificate_params(&profile) {
        Ok(params) => params,
        Err(e) => {
            return Err(CaError::Certificate(e));
        },
    };
    let key = match rcgen::KeyPair::generate() {
        Ok(key) => key,
        Err(e) => {
            return Err(CaError::Certificate(e));
        },
    };
    let signed = params.self_signed(&key);
    issue_signed(ca.ca_cert_path.as_str(), ca.ca_key_path.as_str(), signed, key)
}

proof fn lemma_server_names_are_certifiable()
    ensures
        forall|i: int|
            0 <= i < server_profile().alternative_names.len() ==> certifiable_name(
                #[trigger] server_profile().alternative_names[i],
            ),
{
    reveal_strlit("localhost");
    let name = "localhost"@;
    assert(name.len() == 9);
    assert(name[0] == 'l' && letter(name[0]));
    assert(name[1] == 'o' && name[2] == 'c' && name[3] == 'a' && name[4] == 'l');
    assert(name[5] == 'h' && name[6] == 'o' && name[7] == 's' && name[8] == 't');
    assert(certifiable_name(name));
}

/// Issue the certificate of the proxy server, which the authority signs.
/// Gives the certificate and the files to write.
pub fn issue_server(ca: &LocalCA, authority: &Issued) -> (r: Result<
    (Issued, Vec<PemFile>),
    CaError,
>)
    ensures
        match r {
            Ok((issued, files)) => {
                &&& stated(issued.cert()) == CertificateView {
                    profile: server_profile(),
                    issuer: stated(authority.cert()).profile.common_name,
                    public_key: public_key(issued.pair()),
                }
                &&& verifies_under(issued.cert(), public_key(authority.pair()))
                &&& are_files_of(files@, ca@.server_cert_path, ca@.server_key_path, issued)
            },
            Err(_) => true,
        },
{
    let key = match rcgen::KeyPair::generate() {
        Ok(key) => key,
        Err(e) => {
            return Err(CaError::Certificate(e));
        },
    };
    let mut alternative_names: Vec<String> = Vec::new();
    alternative_names.push("localhost".to_string());
    alternative_names.push("127.0.0.1".to_string());
    let mut extended_uses: Vec<ExtendedUse> = Vec::new();
    extended_uses.push(ExtendedUse::ServerAuth);
    let profile = CertificateProfile {
        common_name: "localhost".to_string(),
        alternative_names,
        role: Role::EndEntity,
        key_uses: Vec::new(),
        extended_uses,
    };
    assert(profile@.alternative_names =~= server_profile().alternative_names);
    assert(profile@.key_uses =~= server_profile().key_uses);
    assert(profile@.extended_uses =~= server_profile().extended_uses);
    proof {
        lemma_server_names_are_certifiable();
    }
    let params = match certificate_params(&profile) {
        Ok(params) => params,
        Err(e) => {
            return Err(CaError::Certificate(e));
        },
    };
    let signed = signed_by(params, &key, authority.certificate(), authority.key());
    issue_signed(ca.server_cert_path.as_str(), ca.server_key_path.as_str(), signed, key)
}

}
