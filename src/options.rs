//! The configuration record and the choice of the configuration file.
use vstd::prelude::*;
use vstd::string::StringExecFns;
use crate::text::starts_with_char;

verus! {

/// The directory under which unlocked volumes appear.
pub open spec fn mapper_dir() -> Seq<char> {
    "/dev/mapper"@
}

/// What the tool is told about the volume to unlock and how to build its key.
#[derive(Clone, Debug, Default)]
pub struct Options {
    /// Path of the encrypted partition, such as `/dev/nvme0n1p9`.
    pub partition_path: String,
    /// Name to use for the mapper device, such as `encrypted`.
    pub mapper_name: String,
    /// Where the unlocked partition is mounted, such as `/mnt/e`.
    pub mount_path: String,
    /// Optional file holding the file fragment of the passphrase.
    pub key_path: Option<String>,
    /// Optional persistent handle of the hardware fragment, such as `0x81000000`.
    pub tpm_handle: Option<u32>,
    /// Whether a fragment typed by the operator is required.
    pub key_prompt: Option<bool>,
    /// Whether the banner is hidden.
    pub no_header: Option<bool>,
}

/// Joining a relative component onto a directory path: an absolute component
/// replaces the path, any other is appended after one separator.
pub open spec fn join_path(dir: Seq<char>, component: Seq<char>) -> Seq<char> {
    if component.len() > 0 && component[0] == '/' {
        component
    } else {
        dir + seq!['/'] + component
    }
}

impl Options {
    /// The device path under which the unlocked partition appears.
    pub fn get_mapper_path(&self) -> (r: String)
        ensures
            r@ == join_path(mapper_dir(), self.mapper_name@),
    {
        proof {
            reveal_strlit("/dev/mapper");
        }
        if starts_with_char(self.mapper_name.as_str(), '/') {
            self.mapper_name.clone()
        } else {
            let dir = String::from_str("/dev/mapper");
            let with_sep = dir.concat("/");
            let r = with_sep.concat(self.mapper_name.as_str());
            proof {
                reveal_strlit("/");
                assert(r@ =~= join_path(mapper_dir(), self.mapper_name@));
            }
            r
        }
    }
}

/// The ways in which configuration cannot be found or read.
#[derive(Clone, Copy, Debug, PartialEq, Eq, Structural)]
pub enum OptionsError {
    ReadDir,
    NoFile,
    MultipleFiles,
    Read,
    Deserialize,
}

impl OptionsError {
    /// A sentence that describes the error.
    pub fn message(&self) -> (r: &'static str)
        ensures
            r@.len() > 0,
    {
        let r = match self {
            OptionsError::ReadDir => "Unable to read config directory",
            OptionsError::NoFile => "Options file does not exist",
            OptionsError::MultipleFiles => "Multiple options files found",
            OptionsError::Read => "Unable to read options file",
            OptionsError::Deserialize => "Unable to deserialize options file",
        };
        proof {
            reveal_strlit("Unable to read config directory");
            reveal_strlit("Options file does not exist");
            reveal_strlit("Multiple options files found");
            reveal_strlit("Unable to read options file");
            reveal_strlit("Unable to deserialize options file");
        }
        r
    }
}

/// What `Path::extension` returns for a path: the part of the file name after
/// its last dot, if there is one and the name is more than that dot.
pub uninterp spec fn extension_of(path: Seq<char>) -> Option<Seq<char>>;

/// Relies on `std::path::Path::extension`; the path is UTF-8, so the extension
/// is too.
#[verifier::external_body]
fn path_extension(path: &str) -> (r: Option<String>)
    ensures
        match r {
            Some(e) => extension_of(path@) == Some(e@),
            None => extension_of(path@) is None,
        },
{
    std::path::Path::new(path).extension().and_then(|e| e.to_str()).map(|e| e.to_string())
}

/// Whether an extension marks a configuration file.
pub open spec fn is_config_extension(ext: Option<Seq<char>>) -> bool {
    match ext {
        Some(e) => e == "yaml"@ || e == "yml"@,
        None => false,
    }
}

/// Whether an extension, as `Path::extension` gives it, marks a configuration file.
pub fn has_config_extension(ext: &Option<String>) -> (r: bool)
    ensures
        r == is_config_extension(
            match ext {
                Some(e) => Some(e@),
                None => None,
            },
        ),
{
    proof {
        reveal_strlit("yaml");
        reveal_strlit("yml");
    }
    match ext {
        Some(e) => {
            let yaml = String::from_str("yaml");
            let yml = String::from_str("yml");
            *e == yaml || *e == yml
        },
        None => false,
    }
}

/// Whether a directory entry is taken as a configuration file: it is not known
/// to be something other than a file, and its extension is `yaml` or `yml`.
pub fn is_config_entry(path: &str, is_file: Option<bool>) -> (r: bool)
    ensures
        r == (is_file != Some(false) && is_config_extension(extension_of(path@))),
{
    if is_file == Some(false) {
        return false;
    }
    let ext = path_extension(path);
    has_config_extension(&ext)
}

/// Whether a directory entry, a path and whether it is known to be a file, is
/// taken as a configuration file.
pub open spec fn is_config_candidate(e: (String, Option<bool>)) -> bool {
    e.1 != Some(false) && is_config_extension(extension_of(e.0@))
}

/// The configuration files among the entries of the configuration directory,
/// in the order given.
pub fn get_paths(entries: &Vec<(String, Option<bool>)>) -> (r: Vec<String>)
    ensures
        r@.map_values(|p: String| p@) == entries@.filter(
            |e: (String, Option<bool>)| is_config_candidate(e),
        ).map_values(|e: (String, Option<bool>)| e.0@),
{
    let mut r: Vec<String> = Vec::new();
    let mut i: usize = 0;
    while i < entries.len()
        invariant
            0 <= i <= entries@.len(),
            r@.map_values(|p: String| p@) == entries@.subrange(0, i as int).filter(|e: (String, Option<bool>)| is_config_candidate(e)).map_values(
                |e: (String, Option<bool>)| e.0@,
            ),
        decreases entries@.len() - i,
    {
        let ghost before = r@;
        let ghost prefix = entries@.subrange(0, i as int);
        let ghost next = entries@.subrange(0, i + 1);
        let entry = &entries[i];
        let take = is_config_entry(entry.0.as_str(), entry.1);
        proof {
            assert(next.drop_last() =~= prefix);
            assert(next.last() == entries@[i as int]);
            reveal(Seq::filter);
            assert(*entry == entries@[i as int]);
            assert(take == is_config_candidate(*entry));
            assert(take == is_config_candidate(next.last()));
            if take {
                assert(next.filter(|e: (String, Option<bool>)| is_config_candidate(e)) == prefix.filter(|e: (String, Option<bool>)| is_config_candidate(e)).push(next.last()));
            } else {
                assert(next.filter(|e: (String, Option<bool>)| is_config_candidate(e)) == prefix.filter(|e: (String, Option<bool>)| is_config_candidate(e)));
            }
        }
        if take {
            r.push(entry.0.clone());
            proof {
                assert(r@.map_values(|p: String| p@) =~= before.map_values(|p: String| p@).push(
                    entry.0@,
                ));
                assert(next.filter(|e: (String, Option<bool>)| is_config_candidate(e)).map_values(|e: (String, Option<bool>)| e.0@)
                    =~= prefix.filter(|e: (String, Option<bool>)| is_config_candidate(e)).map_values(|e: (String, Option<bool>)| e.0@).push(
                    entry.0@,
                ));
            }
        }
        i = i + 1;
    }
    assert(entries@.subrange(0, entries@.len() as int) =~= entries@);
    r
}

/// The configuration file to read, from the configuration files found: the one
/// file if there is exactly one.
pub fn get_default_config_path(paths: Vec<String>) -> (r: Result<String, OptionsError>)
    ensures
        paths@.len() == 0 <==> r == Err::<String, OptionsError>(OptionsError::NoFile),
        paths@.len() > 1 <==> r == Err::<String, OptionsError>(OptionsError::MultipleFiles),
        paths@.len() == 1 ==> r is Ok && r->Ok_0@ == paths@[0]@,
{
    let mut paths = paths;
    if paths.len() == 0 {
        Err(OptionsError::NoFile)
    } else if paths.len() > 1 {
        Err(OptionsError::MultipleFiles)
    } else {
        match paths.pop() {
            Some(p) => Ok(p),
            None => Err(OptionsError::NoFile),
        }
    }
}

} // verus!
