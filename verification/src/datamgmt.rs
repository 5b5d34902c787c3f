//! Data management for templates: tar archives held as named entries, base64, and password
//! based encryption whose output is framed as `salt | nonce | ciphertext`.
use vstd::prelude::*;
use crate::keyed::KeyedVec;
use crate::text::append_str;

verus! {

broadcast use vstd::string::group_string_axioms;

/// The largest entry, in bytes, that reading an archive with size checks accepts (4 MiB).
pub const MAX_ENTRY_SIZE: usize = 4194304;

/// One entry as the `tar` crate reads it: its header path, its header size (if the size field
/// can be read) and its data.
#[derive(Debug, Clone)]
pub struct TarEntry {
    pub path: Vec<u8>,
    pub size: Option<u64>,
    pub data: Vec<u8>,
}

/// An entry in mathematical form.
pub open spec fn entry_view(e: TarEntry) -> (Seq<u8>, Option<u64>, Seq<u8>) {
    (e.path@, e.size, e.data@)
}

/// What the `tar` crate reads from `archive`: the entries it read, in order, and the text of the
/// error that stopped it, if one did.
pub uninterp spec fn tar_read(archive: Seq<u8>) -> (Seq<(Seq<u8>, Option<u64>, Seq<u8>)>, Option<Seq<char>>);

/// What the `tar` crate writes for `entries` (path and data, in order): the archive's bytes, or
/// the text of the error.
pub uninterp spec fn tar_built(entries: Seq<(Seq<u8>, Seq<u8>)>) -> Result<Seq<u8>, Seq<char>>;

/// Reads the entries of a tar archive with the `tar` crate (`Archive::entries`, each entry's
/// `Header::path_bytes`, `Header::size` and data): the entries read, then the error that ended
/// the reading, if any. The result is named, not stated: it is whatever the crate reads.
#[verifier::external_body]
fn read_tar_entries(archive: &Vec<u8>) -> (r: (Vec<TarEntry>, Option<String>))
    ensures
        (r.0@.map_values(|e: TarEntry| entry_view(e)), match r.1 { Some(s) => Some(s@), None => None::<Seq<char>> }) == tar_read(archive@),
{
    let mut out = Vec::new();
    let read = (|| -> std::io::Result<()> {
        for entry in tar::Archive::new(archive.as_slice()).entries()? {
            let mut entry = entry?;
            let (path, size) = (entry.header().path_bytes().into_owned(), entry.header().size().ok());
            let mut data = Vec::new();
            std::io::Read::read_to_end(&mut entry, &mut data)?;
            out.push(TarEntry { path, size, data });
        }
        Ok(())
    })();
    (out, read.err().map(|e| e.to_string()))
}

/// Writes a tar archive with the `tar` crate: for each entry in order a GNU header of the data's
/// size, `Builder::append_data` with the path (bytes taken as a path by `bstr`), then
/// `Builder::finish`. The result is named, not stated.
#[verifier::external_body]
fn write_tar(entries: &Vec<(Vec<u8>, Vec<u8>)>) -> (r: Result<Vec<u8>, String>)
    ensures
        match r {
            Ok(b) => tar_built(entries@.map_values(|e: (Vec<u8>, Vec<u8>)| (e.0@, e.1@))) == Ok::<Seq<u8>, Seq<char>>(b@),
            Err(s) => tar_built(entries@.map_values(|e: (Vec<u8>, Vec<u8>)| (e.0@, e.1@))) == Err::<Seq<u8>, Seq<char>>(s@),
        },
{
    let mut buffer = Vec::new();
    let mut builder = tar::Builder::new(&mut buffer);
    for (path, data) in entries.iter() {
        let mut header = tar::Header::new_gnu();
        header.set_size(data.len() as u64);
        let p = bstr::ByteSlice::to_path_lossy(path.as_slice());
        builder.append_data(&mut header, p, data.as_slice()).map_err(|e| e.to_string())?;
    }
    builder.finish().map_err(|e| e.to_string())?;
    drop(builder);
    Ok(buffer)
}

/// The text of `bytes` with invalid UTF-8 replaced (`String::from_utf8_lossy`).
pub uninterp spec fn utf8_lossy(bytes: Seq<u8>) -> Seq<char>;

/// Decodes bytes as UTF-8, replacing what is invalid (`String::from_utf8_lossy`).
#[verifier::external_body]
fn lossy_text(bytes: &Vec<u8>) -> (r: String)
    ensures
        r@ == utf8_lossy(bytes@),
{
    String::from_utf8_lossy(bytes.as_slice()).into_owned()
}

/// Why an archive could not be read or written.
#[derive(Debug)]
pub enum TarError {
    /// The `tar` crate failed; its error's text.
    Io(String),
    /// An entry claims more bytes than the whole archive holds.
    EntryExceedsArchive,
    /// An entry is larger than the limit; its path.
    EntryTooLarge(Vec<u8>),
}

/// A tar error in mathematical form.
pub enum TarErrorView {
    Io(Seq<char>),
    EntryExceedsArchive,
    EntryTooLarge(Seq<u8>),
}

impl View for TarError {
    type V = TarErrorView;

    open spec fn view(&self) -> TarErrorView {
        match self {
            TarError::Io(s) => TarErrorView::Io(s@),
            TarError::EntryExceedsArchive => TarErrorView::EntryExceedsArchive,
            TarError::EntryTooLarge(p) => TarErrorView::EntryTooLarge(p@),
        }
    }
}

/// The message of a tar error.
pub open spec fn tar_error_text(e: TarErrorView) -> Seq<char> {
    match e {
        TarErrorView::Io(s) => s,
        TarErrorView::EntryExceedsArchive => "Entry size exceeds total archive size."@,
        TarErrorView::EntryTooLarge(p) => "Archive entry '"@ + utf8_lossy(p) + "' exceeds maximum allowed size."@,
    }
}

impl TarError {
    /// The error's message.
    pub fn message(&self) -> (r: String)
        ensures
            r@ == tar_error_text(self@),
    {
        match self {
            TarError::Io(s) => s.clone(),
            TarError::EntryExceedsArchive => "Entry size exceeds total archive size.".to_string(),
            TarError::EntryTooLarge(p) => {
                let mut s = "Archive entry '".to_string();
                let name = lossy_text(p);
                append_str(&mut s, name.as_str());
                append_str(&mut s, "' exceeds maximum allowed size.");
                s
            },
        }
    }
}

/// The entries of `entries` as a map from path to data: a later entry with a path replaces an
/// earlier one.
pub open spec fn entries_to_map(entries: Seq<(Seq<u8>, Option<u64>, Seq<u8>)>) -> Map<Seq<u8>, Seq<u8>>
    decreases entries.len(),
{
    if entries.len() == 0 {
        Map::empty()
    } else {
        let last = entries.last();
        entries_to_map(entries.drop_last()).insert(last.0, last.2)
    }
}

/// The size an entry is checked by: its header size, or 0 when that cannot be read.
pub open spec fn checked_size(e: (Seq<u8>, Option<u64>, Seq<u8>)) -> nat {
    match e.1 {
        Some(s) => s as nat,
        None => 0,
    }
}

/// The first refusal among `entries` under the size checks for an archive of `len` bytes:
/// an entry larger than the archive, or larger than the limit.
pub open spec fn size_refusal(entries: Seq<(Seq<u8>, Option<u64>, Seq<u8>)>, len: nat) -> Option<TarErrorView>
    decreases entries.len(),
{
    if entries.len() == 0 {
        None
    } else {
        match size_refusal(entries.drop_last(), len) {
            Some(e) => Some(e),
            None => {
                let last = entries.last();
                if checked_size(last) > len {
                    Some(TarErrorView::EntryExceedsArchive)
                } else if checked_size(last) > MAX_ENTRY_SIZE {
                    Some(TarErrorView::EntryTooLarge(last.0))
                } else {
                    None
                }
            },
        }
    }
}

/// The UTF-8 bytes of `s`.
pub fn bytes_of(s: &str) -> (r: Vec<u8>)
    ensures
        r@ == vstd::utf8::encode_utf8(s@),
{
    let b = s.as_bytes();
    let mut out: Vec<u8> = Vec::new();
    let mut i: usize = 0;
    while i < b.len()
        invariant
            b@ == vstd::utf8::encode_utf8(s@),
            i <= b@.len(),
            out@ == b@.take(i as int),
        decreases b@.len() - i,
    {
        out.push(b[i]);
        assert(b@.take(i + 1) =~= b@.take(i as int).push(b@[i as int]));
        i = i + 1;
    }
    assert(b@.take(b@.len() as int) =~= b@);
    out
}

/// A tar archive held as entries by path.
pub struct TarArchive {
    entries: KeyedVec<Vec<u8>, Vec<u8>>,
}

impl TarArchive {
    /// The entries: data by path.
    pub closed spec fn files(&self) -> Map<Seq<u8>, Seq<u8>> {
        self.entries@.map_values(|v: Vec<u8>| v@)
    }

    /// The archive is well formed.
    pub closed spec fn wf(&self) -> bool {
        self.entries.wf()
    }

    /// An empty archive.
    pub fn new() -> (r: TarArchive)
        ensures
            r.wf(),
            r.files() == Map::<Seq<u8>, Seq<u8>>::empty(),
    {
        let r = TarArchive { entries: KeyedVec::new() };
        assert(r.files() =~= Map::<Seq<u8>, Seq<u8>>::empty());
        r
    }

    /// The number of entries.
    pub fn len(&self) -> (r: usize)
        requires
            self.wf(),
        ensures
            r == self.files().len(),
    {
        proof {
            assert(self.files().dom() =~= self.entries@.dom());
        }
        self.entries.len()
    }

    /// Adds (or replaces) the entry at `name`.
    pub fn add_entry(&mut self, name: Vec<u8>, data: Vec<u8>)
        requires
            old(self).wf(),
        ensures
            final(self).wf(),
            final(self).files() == old(self).files().insert(name@, data@),
    {
        self.entries.insert(name, data);
        proof {
            assert(self.files() =~= old(self).files().insert(name@, data@));
        }
    }

    /// Takes the entry at `name` out of the archive.
    pub fn take_entry(&mut self, name: &str) -> (r: Option<Vec<u8>>)
        requires
            old(self).wf(),
        ensures
            final(self).wf(),
            final(self).files() == old(self).files().remove(vstd::utf8::encode_utf8(name@)),
            match r {
                Some(d) => old(self).files().contains_key(vstd::utf8::encode_utf8(name@)) && d@ == old(self).files()[vstd::utf8::encode_utf8(name@)],
                None => !old(self).files().contains_key(vstd::utf8::encode_utf8(name@)),
            },
    {
        let key = bytes_of(name);
        let r = self.entries.remove(&key);
        proof {
            assert(self.files() =~= old(self).files().remove(vstd::utf8::encode_utf8(name@)));
        }
        r
    }

    /// The paths of the entries.
    pub fn entry_names(&self) -> (r: Vec<Vec<u8>>)
        requires
            self.wf(),
        ensures
            r@.len() == self.files().len(),
            forall|i: int| 0 <= i < r@.len() ==> self.files().contains_key(#[trigger] r@[i]@),
            forall|k: Seq<u8>| #[trigger] self.files().contains_key(k) ==> exists|i: int| 0 <= i < r@.len() && r@[i]@ == k,
    {
        let all = self.entries.entries();
        let mut out: Vec<Vec<u8>> = Vec::new();
        let mut i: usize = 0;
        proof {
            self.entries.lemma_view();
        }
        while i < all.len()
            invariant
                self.wf(),
                all@ == self.entries.entry_seq(),
                i <= all.len(),
                out@.len() == i,
                forall|j: int| 0 <= j < i ==> (#[trigger] out@[j])@ == all@[j].0@,
            decreases all.len() - i,
        {
            out.push(all[i].0.clone());
            i = i + 1;
        }
        proof {
            self.entries.lemma_view();
            assert(self.files().dom() =~= self.entries@.dom());
            assert forall|k: Seq<u8>| #[trigger] self.files().contains_key(k) implies exists|i: int| 0 <= i < out@.len() && out@[i]@ == k by {
                assert(self.entries@.contains_key(k));
                let i = choose|i: int| 0 <= i < self.entries.entry_seq().len() && self.entries.entry_seq()[i].0@ == k;
                assert(out@[i]@ == k);
            }
        }
        out
    }

    fn from_entries(entries: Vec<TarEntry>) -> (r: TarArchive)
        ensures
            r.wf(),
            r.files() == entries_to_map(entries@.map_values(|e: TarEntry| entry_view(e))),
    {
        let mut a = TarArchive::new();
        let ghost views = entries@.map_values(|e: TarEntry| entry_view(e));
        let mut i: usize = 0;
        while i < entries.len()
            invariant
                a.wf(),
                i <= entries.len(),
                views == entries@.map_values(|e: TarEntry| entry_view(e)),
                a.files() == entries_to_map(views.take(i as int)),
            decreases entries.len() - i,
        {
            let e = &entries[i];
            a.add_entry(e.path.clone(), e.data.clone());
            assert(views.take(i + 1).drop_last() =~= views.take(i as int));
            i = i + 1;
        }
        assert(views.take(entries.len() as int) =~= views);
        a
    }

    /// Reads an archive: every entry the `tar` crate reads, a later entry with a path
    /// replacing an earlier one; refused with the crate's error if reading stopped on one.
    pub fn from_array(arr: Vec<u8>) -> (r: Result<TarArchive, TarError>)
        ensures
            match tar_read(arr@).1 {
                Some(msg) => r matches Err(e) && e@ == TarErrorView::Io(msg),
                None => r matches Ok(a) && a.wf() && a.files() == entries_to_map(tar_read(arr@).0),
            },
    {
        let (entries, err) = read_tar_entries(&arr);
        match err {
            Some(msg) => Err(TarError::Io(msg)),
            None => Ok(TarArchive::from_entries(entries)),
        }
    }

    /// Reads an archive with size checks: an entry whose header size is larger than the archive,
    /// or larger than 4 MiB, refuses the archive (the first such entry decides); otherwise as
    /// `from_array`.
    pub fn from(bytes: Vec<u8>) -> (r: Result<TarArchive, TarError>)
        ensures
            match size_refusal(tar_read(bytes@).0, bytes@.len()) {
                Some(e) => r matches Err(x) && x@ == e,
                None => match tar_read(bytes@).1 {
                    Some(msg) => r matches Err(x) && x@ == TarErrorView::Io(msg),
                    None => r matches Ok(a) && a.wf() && a.files() == entries_to_map(tar_read(bytes@).0),
                },
            },
    {
        let (entries, err) = read_tar_entries(&bytes);
        let ghost views = entries@.map_values(|e: TarEntry| entry_view(e));
        let len = bytes.len();
        let mut i: usize = 0;
        while i < entries.len()
            invariant
                i <= entries.len(),
                views == entries@.map_values(|e: TarEntry| entry_view(e)),
                views == tar_read(bytes@).0,
                len == bytes@.len(),
                size_refusal(views.take(i as int), len as nat) is None,
            decreases entries.len() - i,
        {
            let e = &entries[i];
            let size: u64 = match e.size {
                Some(s) => s,
                None => 0,
            };
            assert(views.take(i + 1).drop_last() =~= views.take(i as int));
            assert(views.take(i + 1).last() == entry_view(entries@[i as int]));
            if size > len as u64 {
                proof {
                    lemma_refusal_extends(views, i as int + 1, len as nat);
                }
                return Err(TarError::EntryExceedsArchive);
            }
            if size > MAX_ENTRY_SIZE as u64 {
                proof {
                    lemma_refusal_extends(views, i as int + 1, len as nat);
                }
                return Err(TarError::EntryTooLarge(e.path.clone()));
            }
            i = i + 1;
        }
        assert(views.take(entries.len() as int) =~= views);
        match err {
            Some(msg) => Err(TarError::Io(msg)),
            None => Ok(TarArchive::from_entries(entries)),
        }
    }

    /// Writes the archive's entries, in the order they were added, with the `tar` crate.
    pub fn to_blob(self) -> (r: Result<Vec<u8>, TarError>)
        requires
            self.wf(),
        ensures
            exists|order: Seq<(Seq<u8>, Seq<u8>)>| {
                &&& order.len() == self.files().len()
                &&& (forall|i: int| 0 <= i < order.len() ==> self.files().contains_key(#[trigger] order[i].0) && self.files()[order[i].0] == order[i].1)
                &&& (forall|i: int, j: int| 0 <= i < j < order.len() ==> order[i].0 != order[j].0)
                &&& match tar_built(order) {
                    Ok(b) => r matches Ok(v) && v@ == b,
                    Err(s) => r matches Err(e) && e@ == TarErrorView::Io(s),
                }
            },
    {
        let all = self.entries.entries();
        let mut list: Vec<(Vec<u8>, Vec<u8>)> = Vec::new();
        let mut i: usize = 0;
        proof {
            self.entries.lemma_view();
        }
        while i < all.len()
            invariant
                self.wf(),
                all@ == self.entries.entry_seq(),
                i <= all.len(),
                list@.len() == i,
                forall|j: int| 0 <= j < i ==> (#[trigger] list@[j]).0@ == all@[j].0@ && list@[j].1@ == all@[j].1@,
            decreases all.len() - i,
        {
            list.push((all[i].0.clone(), all[i].1.clone()));
            i = i + 1;
        }
        let r = write_tar(&list);
        proof {
            self.entries.lemma_view();
            let order = list@.map_values(|e: (Vec<u8>, Vec<u8>)| (e.0@, e.1@));
            assert(self.files().dom() =~= self.entries@.dom());
            assert forall|i: int| 0 <= i < order.len() implies self.files().contains_key(#[trigger] order[i].0) && self.files()[order[i].0] == order[i].1 by {
                assert(order[i] == (list@[i].0@, list@[i].1@));
            }
            assert forall|i: int, j: int| 0 <= i < j < order.len() implies order[i].0 != order[j].0 by {
                assert(order[i] == (list@[i].0@, list@[i].1@));
                assert(order[j] == (list@[j].0@, list@[j].1@));
            }
        }
        match r {
            Ok(b) => Ok(b),
            Err(s) => Err(TarError::Io(s)),
        }
    }
}

/// A refusal found in a prefix of the entries is the refusal of all of them.
proof fn lemma_refusal_extends(views: Seq<(Seq<u8>, Option<u64>, Seq<u8>)>, k: int, len: nat)
    requires
        0 <= k <= views.len(),
        size_refusal(views.take(k), len) is Some,
    ensures
        size_refusal(views, len) == size_refusal(views.take(k), len),
    decreases views.len() - k,
{
    if k < views.len() {
        assert(views.drop_last().take(k) =~= views.take(k));
        lemma_refusal_extends(views.drop_last(), k, len);
    } else {
        assert(views.take(k) =~= views);
    }
}

/// Why an encoding, a key derivation or a cipher step failed.
#[derive(Debug)]
pub enum CryptError {
    /// The key derivation parameters were refused; the error's text.
    Params(String),
    /// Hashing the password failed; the error's text.
    Hash(String),
    /// The cipher refused the key; the error's text.
    Cipher(String),
    /// Encryption failed; the error's text.
    Encrypt(String),
    /// Decryption failed (a wrong key or damaged data); the error's text.
    Decrypt(String),
    /// The data is shorter than a salt and a nonce.
    TooShort,
    /// The text is not standard base64; the error's text.
    Base64(String),
}

/// A crypt error in mathematical form.
pub enum CryptErrorView {
    Params(Seq<char>),
    Hash(Seq<char>),
    Cipher(Seq<char>),
    Encrypt(Seq<char>),
    Decrypt(Seq<char>),
    TooShort,
    Base64(Seq<char>),
}

impl View for CryptError {
    type V = CryptErrorView;

    open spec fn view(&self) -> CryptErrorView {
        match self {
            CryptError::Params(s) => CryptErrorView::Params(s@),
            CryptError::Hash(s) => CryptErrorView::Hash(s@),
            CryptError::Cipher(s) => CryptErrorView::Cipher(s@),
            CryptError::Encrypt(s) => CryptErrorView::Encrypt(s@),
            CryptError::Decrypt(s) => CryptErrorView::Decrypt(s@),
            CryptError::TooShort => CryptErrorView::TooShort,
            CryptError::Base64(s) => CryptErrorView::Base64(s@),
        }
    }
}

/// The message of a crypt error.
pub open spec fn crypt_error_text(e: CryptErrorView) -> Seq<char> {
    match e {
        CryptErrorView::Params(s) => "Failed to create Argon2 parameters: "@ + s,
        CryptErrorView::Hash(s) => "Failed to hash password: "@ + s,
        CryptErrorView::Cipher(s) => "Aes256 cipher fail: "@ + s,
        CryptErrorView::Encrypt(s) => "Failed to encrypt: "@ + s,
        CryptErrorView::Decrypt(s) => "Failed to decrypt: "@ + s,
        CryptErrorView::TooShort => "Blob data is too short to decrypt"@,
        CryptErrorView::Base64(s) => "Failed to decode base64: "@ + s,
    }
}

impl CryptError {
    /// The error's message.
    pub fn message(&self) -> (r: String)
        ensures
            r@ == crypt_error_text(self@),
    {
        let (prefix, detail) = match self {
            CryptError::Params(s) => ("Failed to create Argon2 parameters: ", s.as_str()),
            CryptError::Hash(s) => ("Failed to hash password: ", s.as_str()),
            CryptError::Cipher(s) => ("Aes256 cipher fail: ", s.as_str()),
            CryptError::Encrypt(s) => ("Failed to encrypt: ", s.as_str()),
            CryptError::Decrypt(s) => ("Failed to decrypt: ", s.as_str()),
            CryptError::TooShort => ("Blob data is too short to decrypt", ""),
            CryptError::Base64(s) => ("Failed to decode base64: ", s.as_str()),
        };
        let mut out = prefix.to_string();
        append_str(&mut out, detail);
        proof {
            reveal_strlit("");
        }
        assert(out@ =~= crypt_error_text(self@));
        out
    }
}

/// A result of bytes with a crypt error, in mathematical form.
pub open spec fn crypt_view(r: Result<Vec<u8>, CryptError>) -> Result<Seq<u8>, CryptErrorView> {
    match r {
        Ok(v) => Ok(v@),
        Err(e) => Err(e@),
    }
}

/// What `argon2` derives (Argon2id, version 0x13) from a password and a salt with the given
/// time, memory and parallelism costs and output length: the key, or the failing step.
pub uninterp spec fn argon2id_key(password: Seq<u8>, salt: Seq<u8>, t_cost: u32, m_cost: u32, p_cost: u32, out_len: usize) -> Result<Seq<u8>, CryptErrorView>;

/// What AES-256-GCM (`aes-gcm`) gives when sealing `plaintext` under `key` and `nonce`.
pub uninterp spec fn aes256gcm_sealed(key: Seq<u8>, nonce: Seq<u8>, plaintext: Seq<u8>) -> Result<Seq<u8>, CryptErrorView>;

/// What AES-256-GCM (`aes-gcm`) gives when opening `ciphertext` under `key` and `nonce`.
pub uninterp spec fn aes256gcm_opened(key: Seq<u8>, nonce: Seq<u8>, ciphertext: Seq<u8>) -> Result<Seq<u8>, CryptErrorView>;

/// The standard base64 text of `data` (`base64`'s `BASE64_STANDARD`, with padding).
pub uninterp spec fn base64_encoded(data: Seq<u8>) -> Seq<char>;

/// What decoding `text` as standard base64 gives: the bytes, or the error's text.
pub uninterp spec fn base64_decoded(text: Seq<u8>) -> Result<Seq<u8>, Seq<char>>;

/// Derives a key with `argon2`: `ParamsBuilder` with the given costs and output length, then
/// `Argon2::hash_password_into` with Argon2id, version 0x13, into a buffer of that length.
/// The key is named, not stated; its length is the one asked for.
#[verifier::external_body]
fn derive_key(password: &[u8], salt: &[u8], t_cost: u32, m_cost: u32, p_cost: u32, out_len: usize) -> (r: Result<Vec<u8>, CryptError>)
    ensures
        crypt_view(r) == argon2id_key(password@, salt@, t_cost, m_cost, p_cost, out_len),
        r matches Ok(k) ==> k@.len() == out_len,
{
    let params = argon2::ParamsBuilder::new().t_cost(t_cost).m_cost(m_cost).p_cost(p_cost).output_len(out_len).build()
        .map_err(|e| CryptError::Params(format!("{}", e)))?;
    let hasher = argon2::Argon2::new(argon2::Algorithm::Argon2id, argon2::Version::V0x13, params);
    let mut out = vec![0u8; out_len];
    hasher.hash_password_into(password, salt, &mut out).map_err(|e| CryptError::Hash(format!("{:?}", e)))?;
    Ok(out)
}

/// Seals with AES-256-GCM (`KeyInit::new_from_slice`, then `Aead::encrypt`). The nonce must be
/// 12 bytes (`Nonce::from_slice` panics otherwise). The result is named, not stated.
#[verifier::external_body]
fn aes256gcm_seal(key: &[u8], nonce: &[u8], plaintext: &[u8]) -> (r: Result<Vec<u8>, CryptError>)
    requires
        nonce@.len() == 12,
    ensures
        crypt_view(r) == aes256gcm_sealed(key@, nonce@, plaintext@),
{
    let cipher = <aes_gcm::Aes256Gcm as aes_gcm::KeyInit>::new_from_slice(key).map_err(|x| CryptError::Cipher(format!("{}", x)))?;
    aes_gcm::aead::Aead::encrypt(&cipher, aes_gcm::Nonce::from_slice(nonce), plaintext).map_err(|e| CryptError::Encrypt(format!("{:?}", e)))
}

/// Opens with AES-256-GCM (`KeyInit::new_from_slice`, then `Aead::decrypt`). The nonce must be
/// 12 bytes. The result is named, not stated.
#[verifier::external_body]
fn aes256gcm_open(key: &[u8], nonce: &[u8], ciphertext: &[u8]) -> (r: Result<Vec<u8>, CryptError>)
    requires
        nonce@.len() == 12,
    ensures
        crypt_view(r) == aes256gcm_opened(key@, nonce@, ciphertext@),
{
    let cipher = <aes_gcm::Aes256Gcm as aes_gcm::KeyInit>::new_from_slice(key).map_err(|x| CryptError::Cipher(format!("{}", x)))?;
    aes_gcm::aead::Aead::decrypt(&cipher, aes_gcm::Nonce::from_slice(nonce), ciphertext).map_err(|e| CryptError::Decrypt(format!("{:?}", e)))
}

/// `n` random bytes from the thread's generator (`RngCore::fill_bytes` on `rand::rng()`);
/// only their number is stated.
#[verifier::external_body]
fn random_bytes(n: usize) -> (r: Vec<u8>)
    ensures
        r@.len() == n,
{
    let mut out = vec![0u8; n];
    rand::RngCore::fill_bytes(&mut rand::rng(), &mut out);
    out
}

/// Encodes with `base64`'s standard engine (`Engine::encode`).
#[verifier::external_body]
fn base64_standard_encode(data: &[u8]) -> (r: String)
    ensures
        r@ == base64_encoded(data@),
{
    base64::Engine::encode(&base64::prelude::BASE64_STANDARD, data)
}

/// Decodes with `base64`'s standard engine (`Engine::decode`); an error gives its debug text.
#[verifier::external_body]
fn base64_standard_decode(text: &[u8]) -> (r: Result<Vec<u8>, String>)
    ensures
        match r {
            Ok(v) => base64_decoded(text@) == Ok::<Seq<u8>, Seq<char>>(v@),
            Err(s) => base64_decoded(text@) == Err::<Seq<u8>, Seq<char>>(s@),
        },
{
    base64::Engine::decode(&base64::prelude::BASE64_STANDARD, text).map_err(|e| format!("{:?}", e))
}

/// The standard base64 text of `data`.
pub fn base64encode(data: &[u8]) -> (r: String)
    ensures
        r@ == base64_encoded(data@),
{
    base64_standard_encode(data)
}

/// Decodes standard base64 text.
pub fn base64decode(text: &[u8]) -> (r: Result<Vec<u8>, CryptError>)
    ensures
        match base64_decoded(text@) {
            Ok(b) => r matches Ok(v) && v@ == b,
            Err(s) => r matches Err(e) && e@ == CryptErrorView::Base64(s),
        },
{
    match base64_standard_decode(text) {
        Ok(v) => Ok(v),
        Err(s) => Err(CryptError::Base64(s)),
    }
}

/// The key derivation costs: one pass, 64 MiB, four lanes, a 32-byte key.
pub open spec fn derived_key(key: Seq<char>, salt: Seq<u8>) -> Result<Seq<u8>, CryptErrorView> {
    argon2id_key(vstd::utf8::encode_utf8(key), salt, 1, 65536, 4, 32)
}

/// The frame of encrypted data: the salt, the nonce, then the ciphertext.
pub open spec fn frame(salt: Seq<u8>, nonce: Seq<u8>, ciphertext: Seq<u8>) -> Seq<u8> {
    salt + nonce + ciphertext
}

/// What decrypting `blob` with `key` gives: refused when shorter than salt and nonce;
/// otherwise the key is derived from the salt (the first 8 bytes) and the rest after the
/// nonce (the next 12) is opened.
pub open spec fn decrypt_spec(blob: Seq<u8>, key: Seq<char>) -> Result<Seq<u8>, CryptErrorView> {
    if blob.len() < 20 {
        Err(CryptErrorView::TooShort)
    } else {
        match derived_key(key, blob.take(8)) {
            Err(e) => Err(e),
            Ok(k) => aes256gcm_opened(k, blob.subrange(8, 20), blob.skip(20)),
        }
    }
}

fn copy_range(v: &[u8], start: usize, end: usize) -> (r: Vec<u8>)
    requires
        start <= end <= v@.len(),
    ensures
        r@ == v@.subrange(start as int, end as int),
{
    let mut out: Vec<u8> = Vec::new();
    let mut i: usize = start;
    while i < end
        invariant
            start <= i <= end,
            end <= v@.len(),
            out@ == v@.subrange(start as int, i as int),
        decreases end - i,
    {
        out.push(v[i]);
        assert(v@.subrange(start as int, i + 1) =~= v@.subrange(start as int, i as int).push(v@[i as int]));
        i = i + 1;
    }
    out
}

fn append_bytes(out: &mut Vec<u8>, v: &[u8])
    ensures
        final(out)@ == old(out)@ + v@,
{
    let ghost start = out@;
    let mut i: usize = 0;
    while i < v.len()
        invariant
            i <= v@.len(),
            out@ == start + v@.take(i as int),
        decreases v@.len() - i,
    {
        out.push(v[i]);
        assert(start + v@.take(i + 1) =~= (start + v@.take(i as int)).push(v@[i as int]));
        i = i + 1;
    }
    assert(v@.take(v@.len() as int) =~= v@);
}

/// Encrypts `data` with a key derived from `key`: a fresh random 8-byte salt and 12-byte nonce,
/// and the output framed as salt, nonce, ciphertext. Whatever the salt and nonce came out as,
/// the output is the frame of them and of the data sealed under the key derived from that salt;
/// a failure is the derivation's or the cipher's for some such salt and nonce.
pub fn aes256encrypt(data: &[u8], key: &str) -> (r: Result<Vec<u8>, CryptError>)
    ensures
        r matches Ok(out) ==> exists|salt: Seq<u8>, nonce: Seq<u8>, k: Seq<u8>, ct: Seq<u8>| {
            &&& salt.len() == 8 && nonce.len() == 12
            &&& derived_key(key@, salt) == Ok::<Seq<u8>, CryptErrorView>(k)
            &&& aes256gcm_sealed(k, nonce, data@) == Ok::<Seq<u8>, CryptErrorView>(ct)
            &&& out@ == frame(salt, nonce, ct)
        },
        r matches Err(e) ==> exists|salt: Seq<u8>, nonce: Seq<u8>| {
            &&& salt.len() == 8 && nonce.len() == 12
            &&& (derived_key(key@, salt) == Err::<Seq<u8>, CryptErrorView>(e@) || exists|k: Seq<u8>|
                derived_key(key@, salt) == Ok::<Seq<u8>, CryptErrorView>(k) && aes256gcm_sealed(k, nonce, data@)
                    == Err::<Seq<u8>, CryptErrorView>(e@))
        },
{
    let salt = random_bytes(8);
    let password = bytes_of(key);
    let derived = derive_key(password.as_slice(), salt.as_slice(), 1, 65536, 4, 32);
    let nonce = random_bytes(12);
    let k = match derived {
        Ok(k) => k,
        Err(e) => {
            assert(derived_key(key@, salt@) == Err::<Seq<u8>, CryptErrorView>(e@));
            return Err(e);
        },
    };
    match aes256gcm_seal(k.as_slice(), nonce.as_slice(), data) {
        Ok(ct) => {
            let mut out: Vec<u8> = Vec::new();
            append_bytes(&mut out, salt.as_slice());
            append_bytes(&mut out, nonce.as_slice());
            append_bytes(&mut out, ct.as_slice());
            assert(out@ =~= frame(salt@, nonce@, ct@));
            Ok(out)
        },
        Err(e) => Err(e),
    }
}

/// Decrypts data framed as salt, nonce, ciphertext with a key derived from `key`.
pub fn aes256decrypt(blob: &[u8], key: &str) -> (r: Result<Vec<u8>, CryptError>)
    ensures
        crypt_view(r) == decrypt_spec(blob@, key@),
{
    if blob.len() < 20 {
        return Err(CryptError::TooShort);
    }
    let salt = copy_range(blob, 0, 8);
    let nonce = copy_range(blob, 8, 20);
    let ct = copy_range(blob, 20, blob.len());
    assert(salt@ =~= blob@.take(8));
    assert(ct@ =~= blob@.skip(20));
    let password = bytes_of(key);
    let k = derive_key(password.as_slice(), salt.as_slice(), 1, 65536, 4, 32)?;
    aes256gcm_open(k.as_slice(), nonce.as_slice(), ct.as_slice())
}

/// Decrypting what encryption produced gives the data back, wherever the cipher opens what it
/// sealed: the frame splits into the same salt, nonce and ciphertext, and the salt derives the
/// same key.
pub proof fn lemma_decrypt_undoes_encrypt(key: Seq<char>, salt: Seq<u8>, nonce: Seq<u8>, data: Seq<u8>, k: Seq<u8>, ct: Seq<u8>)
    requires
        salt.len() == 8,
        nonce.len() == 12,
        derived_key(key, salt) == Ok::<Seq<u8>, CryptErrorView>(k),
        aes256gcm_sealed(k, nonce, data) == Ok::<Seq<u8>, CryptErrorView>(ct),
        aes256gcm_opened(k, nonce, ct) == Ok::<Seq<u8>, CryptErrorView>(data),
    ensures
        decrypt_spec(frame(salt, nonce, ct), key) == Ok::<Seq<u8>, CryptErrorView>(data),
{
    let f = frame(salt, nonce, ct);
    assert(f.take(8) =~= salt);
    assert(f.subrange(8, 20) =~= nonce);
    assert(f.skip(20) =~= ct);
}

/// Data shorter than a salt and a nonce is refused before any key is derived.
pub proof fn lemma_short_blob_refused(blob: Seq<u8>, key: Seq<char>)
    requires
        blob.len() < 20,
    ensures
        decrypt_spec(blob, key) == Err::<Seq<u8>, CryptErrorView>(CryptErrorView::TooShort),
{
}

} // verus!
