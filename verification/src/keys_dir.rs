//! The directory of key files: one file for each gateway, named after its MAC address.
use vstd::prelude::*;
use vstd::string::*;
use crate::keypair::{GatewayKeypair, KeypairError, NEW_KEY_TAG};
use crate::keypair::{
    has_nonzero, is_key, is_paired, key_of_entropy, reads_as_key, KeypairView,
};
use crate::mac::{bytes_to_hex, MacAddress};
use crate::mac::{hex_text, is_mac_text, law_key_name_reads_back, mac_of_text};
use crate::text::same_text;

verus! {

/// What the names of key files end with.
pub const KEY_SUFFIX: &'static str = ".key";

/// Number of characters in the suffix of key files.
pub const KEY_SUFFIX_LEN: usize = 4;

/// Converts a MAC address to the name of its key, without suffix: AA:BB:CC:DD:EE:FF:00:11 gives
/// AABBCCDDEEFF0011.
pub fn mac_to_key_name(mac: &MacAddress) -> (name: String)
    ensures
        name@ == hex_text(mac@),
{
    bytes_to_hex(vstd::array::array_as_slice(&mac.bytes))
}

/// The name of the key file of a gateway.
pub open spec fn key_file_text(mac: Seq<u8>) -> Seq<char> {
    hex_text(mac) + KEY_SUFFIX@
}

/// Writes the name of the key file of a gateway.
pub fn key_file_name(mac: &MacAddress) -> (name: String)
    ensures
        name@ == key_file_text(mac@),
{
    let mut name = mac_to_key_name(mac);
    name.append(KEY_SUFFIX);
    name
}

/// The name of the key in a key file: the file's name without the suffix. `None` if the file is
/// none of keys.
pub open spec fn stem_of(file_name: Seq<char>) -> Option<Seq<char>> {
    if file_name.len() >= KEY_SUFFIX_LEN && file_name.skip(file_name.len() - KEY_SUFFIX_LEN)
        == KEY_SUFFIX@ {
        Some(file_name.take(file_name.len() - KEY_SUFFIX_LEN))
    } else {
        None
    }
}

/// Finds the name of the key in a key file.
pub fn key_stem(file_name: &str) -> (stem: Option<String>)
    ensures
        match stem {
            Some(name) => stem_of(file_name@) == Some(name@),
            None => stem_of(file_name@) is None,
        },
{
    let len: usize = file_name.unicode_len();
    if len < KEY_SUFFIX_LEN {
        return None;
    }
    let suffix = file_name.substring_char(len - KEY_SUFFIX_LEN, len);
    assert(suffix@ == file_name@.skip(len - KEY_SUFFIX_LEN));
    if same_text(suffix, KEY_SUFFIX) {
        let stem = file_name.substring_char(0, len - KEY_SUFFIX_LEN);
        assert(stem@ == file_name@.take(len - KEY_SUFFIX_LEN));
        Some(stem.to_owned())
    } else {
        None
    }
}

/// A file of the keys directory.
pub struct KeyFile {
    pub name: String,
    /// What is in the file; `None` if it cannot be read.
    pub contents: Option<Vec<u8>>,
}

/// The keypair in a file, with the name of the key. `None` if the file is none of keys, cannot be
/// read or holds no keypair.
pub open spec fn file_key(file: KeyFile) -> Option<(Seq<char>, KeypairView)> {
    match (stem_of(file.name@), file.contents) {
        (Some(stem), Some(contents)) => if is_key(contents@) {
            Some((stem, KeypairView::of_key(contents@)))
        } else {
            None
        },
        _ => None,
    }
}

/// The keypairs in a number of files, in the order of the files.
pub open spec fn file_keys(files: Seq<KeyFile>) -> Seq<(Seq<char>, KeypairView)>
    decreases files.len(),
{
    if files.len() == 0 {
        Seq::empty()
    } else {
        match file_key(files.last()) {
            Some(key) => file_keys(files.drop_last()).push(key),
            None => file_keys(files.drop_last()),
        }
    }
}

/// The names and keypairs of a list.
pub open spec fn named_views(keypairs: Seq<(String, GatewayKeypair)>) -> Seq<
    (Seq<char>, KeypairView),
> {
    keypairs.map_values(|k: (String, GatewayKeypair)| (k.0@, k.1@))
}

/// A gateway's keypair, and whether it is new and has to be saved.
pub struct Provision {
    /// The name of the key file.
    pub file_name: String,
    pub keypair: GatewayKeypair,
    /// Whether the keypair is new.
    pub created: bool,
}

/// The keys directory.
pub struct KeysDir {
    path: String,
}

impl View for KeysDir {
    type V = Seq<char>;

    closed spec fn view(&self) -> Seq<char> {
        self.path@
    }
}

impl KeysDir {
    /// The keys directory at a path.
    pub fn new(path: String) -> (dir: KeysDir)
        ensures
            dir@ == path@,
    {
        KeysDir { path }
    }

    /// The path of the directory.
    pub fn path(&self) -> (path: &str)
        ensures
            path@ == self@,
    {
        self.path.as_str()
    }

    /// Takes the keypairs out of the files of the directory. Files that are none of keys and files
    /// without a keypair are passed over.
    pub fn load(&self, files: Vec<KeyFile>) -> (keypairs: Vec<(String, GatewayKeypair)>)
        ensures
            named_views(keypairs@) == file_keys(files@),
            keypairs@.len() == files@.filter_map(|file: KeyFile| file_key(file)).len(),
            forall|i: int|
                0 <= i < keypairs@.len() ==> {
                    let (name, keypair) = #[trigger] keypairs@[i];
                    (name@, keypair@) == files@.filter_map(|file: KeyFile| file_key(file))[i]
                },
    {
        let mut keypairs: Vec<(String, GatewayKeypair)> = Vec::new();
        let mut i: usize = 0;
        assert(named_views(keypairs@) =~= file_keys(files@.take(0)));
        while i < files.len()
            invariant
                i <= files@.len(),
                named_views(keypairs@) == file_keys(files@.take(i as int)),
            decreases files@.len() - i,
        {
            let ghost before = keypairs@;
            assert(files@.take(i + 1).drop_last() =~= files@.take(i as int));
            match (key_stem(files[i].name.as_str()), &files[i].contents) {
                (Some(stem), Some(contents)) => {
                    let copy = contents.clone();
                    assert(copy@ =~= contents@);
                    match GatewayKeypair::from_bytes(copy) {
                        Ok(keypair) => {
                            keypairs.push((stem, keypair));
                            assert(named_views(keypairs@) =~= named_views(before).push(
                                (stem@, keypair@),
                            ));
                        },
                        Err(_) => {},
                    }
                },
                _ => {},
            }
            i += 1;
        }
        proof {
            assert(files@.take(i as int) =~= files@);
            law_load_keeps_the_key_of_every_file(files@);
            assert forall|j: int| 0 <= j < keypairs@.len() implies ({
                let (name, keypair) = #[trigger] keypairs@[j];
                (name@, keypair@) == file_keys(files@)[j]
            }) by {
                assert(named_views(keypairs@)[j] == (keypairs@[j].0@, keypairs@[j].1@));
            }
        }
        keypairs
    }

    /// Gets the keypair of a gateway: the one in its key file if there is such a file (`existing`
    /// is what is in it), else a new one of entropy.
    pub fn get_or_create(
        &self,
        mac: &MacAddress,
        existing: Option<Vec<u8>>,
        entropy: &[u8],
    ) -> (result: Result<Provision, KeypairError>)
        ensures
            match existing {
                Some(contents) => {
                    &&& result is Ok <==> is_key(contents@)
                    &&& result matches Ok(provision) ==> {
                        &&& provision.keypair@ == KeypairView::of_key(contents@)
                        &&& !provision.created
                    }
                },
                None => {
                    &&& result is Ok <==> entropy@.len() == 32 && has_nonzero(entropy@)
                    &&& result matches Ok(provision) ==> {
                        &&& key_of_entropy(NEW_KEY_TAG, entropy@) == Some(provision.keypair@.key)
                        &&& provision.keypair@.is_shown()
                        &&& is_paired(provision.keypair@.key)
                        &&& provision.created
                    }
                },
            },
            result matches Ok(provision) ==> {
                &&& provision.file_name@ == key_file_text(mac@)
                &&& provision.file_name@ == hex_text(mac@) + seq!['.', 'k', 'e', 'y']
                &&& provision.keypair@.consistent()
            },
    {
        let file_name = key_file_name(mac);
        proof {
            law_key_file_is_the_key_name_and_the_suffix(mac@);
        }
        match existing {
            Some(contents) => match GatewayKeypair::from_bytes(contents) {
                Ok(keypair) => Ok(Provision { file_name, keypair, created: false }),
                Err(error) => Err(error),
            },
            None => match GatewayKeypair::generate(entropy) {
                Ok(keypair) => Ok(Provision { file_name, keypair, created: true }),
                Err(error) => Err(error),
            },
        }
    }
}

/// The key file of a gateway is found again as a key file, and its name reads back as the
/// gateway's MAC address.
pub proof fn law_key_file_belongs_to_its_gateway(mac: Seq<u8>)
    requires
        mac.len() == 8,
    ensures
        stem_of(key_file_text(mac)) == Some(hex_text(mac)),
        is_mac_text(stem_of(key_file_text(mac))->0),
        mac_of_text(stem_of(key_file_text(mac))->0) == mac,
{
    reveal_strlit(".key");
    let text = key_file_text(mac);
    assert(text.skip(text.len() - KEY_SUFFIX_LEN) =~= KEY_SUFFIX@);
    assert(text.take(text.len() - KEY_SUFFIX_LEN) =~= hex_text(mac));
    law_key_name_reads_back(mac);
}

/// A keypair that was created for a gateway and saved in its key file is the one that loading the
/// directory finds under the gateway's name, and the one that the gateway gets again.
pub proof fn law_created_keypair_loads_back(mac: Seq<u8>, keypair: KeypairView, file: KeyFile)
    requires
        mac.len() == 8,
        keypair.consistent(),
        file.name@ == key_file_text(mac),
        file.contents matches Some(contents) && contents@ == keypair.key,
    ensures
        file_key(file) == Some((hex_text(mac), keypair)),
        is_key(keypair.key),
        KeypairView::of_key(keypair.key) == keypair,
{
    law_key_file_belongs_to_its_gateway(mac);
}

/// Loading takes the keypair of every file that holds one, each once and in the order of the files,
/// and nothing else, whatever files stand before and behind it.
pub proof fn law_load_keeps_the_key_of_every_file(files: Seq<KeyFile>)
    ensures
        file_keys(files) == files.filter_map(|file: KeyFile| file_key(file)),
        forall|i: int|
            0 <= i < files.len() && file_key(#[trigger] files[i]) is Some ==> file_keys(
                files,
            ).contains(file_key(files[i])->0),
    decreases files.len(),
{
    if files.len() > 0 {
        let rest = files.drop_last();
        law_load_keeps_the_key_of_every_file(rest);
        assert(file_keys(files) =~= files.filter_map(|file: KeyFile| file_key(file)));
        assert forall|i: int|
            0 <= i < files.len() && file_key(#[trigger] files[i]) is Some implies file_keys(
            files,
        ).contains(file_key(files[i])->0) by {
            let all = file_keys(files);
            if i < rest.len() {
                assert(rest[i] == files[i]);
                let j = choose|j: int|
                    0 <= j < file_keys(rest).len() && file_keys(rest)[j] == file_key(files[i])->0;
                assert(all[j] == file_keys(rest)[j]);
            } else {
                assert(all[all.len() - 1] == file_key(files[i])->0);
            }
        }
    }
}

/// Loading two directories' files together gives what loading them one after the other gives.
pub proof fn law_load_takes_each_file_on_its_own(a: Seq<KeyFile>, b: Seq<KeyFile>)
    ensures
        file_keys(a + b) == file_keys(a) + file_keys(b),
        a.len() == 1 && file_key(a[0]) is Some ==> file_keys(a) == seq![file_key(a[0])->0],
        a.len() == 1 && file_key(a[0]) is None ==> file_keys(a).len() == 0,
    decreases b.len(),
{
    if a.len() == 1 {
        assert(a.drop_last() =~= Seq::<KeyFile>::empty());
        assert(file_keys(a.drop_last()) =~= Seq::empty());
        assert(file_key(a[0]) is Some ==> file_keys(a) =~= seq![file_key(a[0])->0]);
    }
    if b.len() == 0 {
        assert(a + b =~= a);
        assert(file_keys(a + b) =~= file_keys(a) + file_keys(b));
    } else {
        law_load_takes_each_file_on_its_own(a, b.drop_last());
        assert((a + b).drop_last() =~= a + b.drop_last());
        assert(file_keys(a + b) =~= file_keys(a) + file_keys(b));
    }
}

/// A file holds a keypair if its name ends in `.key` and its contents are readable and read as a
/// keypair; the key is named after what stands before the suffix.
pub proof fn law_key_files_are_named_and_readable(file: KeyFile, name: Seq<char>)
    ensures
        (file_key(file) matches Some(key) && key.0 == name) <==> {
            &&& file.name@ == name + seq!['.', 'k', 'e', 'y']
            &&& file.contents matches Some(contents)
            &&& contents@.len() > 0
            &&& reads_as_key(contents@)
        },
        file_key(file) matches Some(key) ==> file.contents matches Some(contents) && key.1
            == KeypairView::of_key(contents@),
{
    law_stem_is_the_name_before_the_suffix(file.name@, name);
}

/// The name of a key file without its suffix is a text exactly if the text and `.key` are the name
/// of the file.
pub proof fn law_stem_is_the_name_before_the_suffix(file_name: Seq<char>, stem: Seq<char>)
    ensures
        stem_of(file_name) == Some(stem) <==> file_name == stem + seq!['.', 'k', 'e', 'y'],
{
    reveal_strlit(".key");
    assert(KEY_SUFFIX@ =~= seq!['.', 'k', 'e', 'y']);
    if stem_of(file_name) == Some(stem) {
        assert(file_name =~= stem + seq!['.', 'k', 'e', 'y']);
    }
    if file_name == stem + seq!['.', 'k', 'e', 'y'] {
        assert(file_name.skip(file_name.len() - KEY_SUFFIX_LEN) =~= KEY_SUFFIX@);
        assert(file_name.take(file_name.len() - KEY_SUFFIX_LEN) =~= stem);
    }
}

/// The key file of a gateway is named after its MAC address, with `.key` behind it.
pub proof fn law_key_file_is_the_key_name_and_the_suffix(mac: Seq<u8>)
    ensures
        key_file_text(mac) == hex_text(mac) + seq!['.', 'k', 'e', 'y'],
{
    reveal_strlit(".key");
    assert(KEY_SUFFIX@ =~= seq!['.', 'k', 'e', 'y']);
}

/// What is said of named keypairs is said of each name and each keypair.
pub proof fn law_named_keypairs_are_names_and_keypairs(keypairs: Seq<(String, GatewayKeypair)>)
    ensures
        named_views(keypairs).len() == keypairs.len(),
        forall|i: int|
            0 <= i < keypairs.len() ==> {
                &&& (#[trigger] named_views(keypairs)[i]).0 == keypairs[i].0@
                &&& named_views(keypairs)[i].1 == keypairs[i].1@
            },
{
}

} // verus!
