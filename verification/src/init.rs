//! The rules that decide how the native library is loaded, initialised and
//! asked for interfaces.
use vstd::prelude::*;
use vstd::string::StringSliceAdditionalSpecFns;

verus! {

/// Why loading or initialising the native library failed.
#[derive(Debug, Clone, Copy, PartialEq, Eq, Structural)]
pub enum InitError {
    /// The path does not name a regular file.
    NotAFile,
    /// Nothing exists at the path.
    Missing,
    /// The library could not be opened.
    FailedLoading,
    /// A symbol is missing or the library refused to initialise.
    FailedInit,
    /// The path cannot be handed to the platform loader.
    Internal,
}

/// The outcome of the checks made on a library path before it is opened:
/// a path that names no regular file is refused first, then one that does
/// not exist, then one that is not valid Unicode.
pub open spec fn spec_library_path_check(is_file: bool, exists: bool, is_unicode: bool) -> Result<
    (),
    InitError,
> {
    if !is_file {
        Err(InitError::NotAFile)
    } else if !exists {
        Err(InitError::Missing)
    } else if !is_unicode {
        Err(InitError::Internal)
    } else {
        Ok(())
    }
}

/// Decides, from what is known of a library path, whether it may be opened.
pub fn library_path_check(is_file: bool, exists: bool, is_unicode: bool) -> (r: Result<
    (),
    InitError,
>)
    ensures
        r == spec_library_path_check(is_file, exists, is_unicode),
        !is_file ==> r == Err::<(), InitError>(InitError::NotAFile),
        is_file && !exists ==> r == Err::<(), InitError>(InitError::Missing),
        is_file && exists && !is_unicode ==> r == Err::<(), InitError>(InitError::Internal),
        r is Ok <==> (is_file && exists && is_unicode),
{
    if !is_file {
        return Err(InitError::NotAFile);
    }
    if !exists {
        return Err(InitError::Missing);
    }
    if !is_unicode {
        return Err(InitError::Internal);
    }
    Ok(())
}

/// A path is let through only when it names a regular file that exists
/// and is valid Unicode; otherwise the first failed check names the error:
/// not a regular file, then missing, then not Unicode.
pub proof fn lemma_library_path_check_order(is_file: bool, exists: bool, is_unicode: bool)
    ensures
        spec_library_path_check(is_file, exists, is_unicode) is Ok <==> (is_file && exists
            && is_unicode),
        !is_file ==> spec_library_path_check(is_file, exists, is_unicode) == Err::<(), InitError>(
            InitError::NotAFile,
        ),
        is_file && !exists ==> spec_library_path_check(is_file, exists, is_unicode) == Err::<
            (),
            InitError,
        >(InitError::Missing),
        is_file && exists && !is_unicode ==> spec_library_path_check(is_file, exists, is_unicode)
            == Err::<(), InitError>(InitError::Internal),
{
}

/// The native initialisation reports success with the code 0 and failure
/// with any other code.
pub fn init_code_check(code: u8) -> (r: Result<(), InitError>)
    ensures
        code == 0 ==> r == Ok::<(), InitError>(()),
        code != 0 ==> r == Err::<(), InitError>(InitError::FailedInit),
{
    if code != 0x0 {
        Err(InitError::FailedInit)
    } else {
        Ok(())
    }
}

/// An interface object at this address may be used: null and the lowest
/// 64 KiB of the address space are refused.
pub fn is_usable_interface_address(address: usize) -> (b: bool)
    ensures
        b == (address > 0x10000),
{
    address > 0x10000
}

/// The names in `names`, each followed by a NUL byte, one after another.
pub open spec fn nul_terminated_list(names: Seq<Seq<u8>>) -> Seq<u8>
    decreases names.len(),
{
    if names.len() == 0 {
        Seq::empty()
    } else {
        nul_terminated_list(names.drop_last()) + names.last() + seq![0u8]
    }
}

/// The bytes of the interface names: the list above, closed by one more
/// NUL byte.
pub open spec fn interface_version_bytes(interfaces: Seq<&str>) -> Seq<u8> {
    nul_terminated_list(interfaces.map_values(|name: &str| name.spec_bytes())) + seq![0u8]
}

/// The list of no names is a single NUL byte.
pub proof fn lemma_interface_version_bytes_empty()
    ensures
        interface_version_bytes(Seq::<&str>::empty()) == seq![0u8],
{
    assert(Seq::<&str>::empty().map_values(|name: &str| name.spec_bytes()) =~= Seq::<
        Seq<u8>,
    >::empty());
    assert(nul_terminated_list(Seq::<Seq<u8>>::empty()) =~= Seq::<u8>::empty());
}

/// The list of one name is every byte of that name followed by two NUL
/// bytes.
pub proof fn lemma_interface_version_bytes_single(name: &str)
    ensures
        interface_version_bytes(seq![name]) == name.spec_bytes() + seq![0u8, 0u8],
{
    let names = seq![name].map_values(|n: &str| n.spec_bytes());
    assert(names.len() == 1);
    assert(names.drop_last() =~= Seq::<Seq<u8>>::empty());
    assert(names.last() == name.spec_bytes());
    assert(nul_terminated_list(names.drop_last()) =~= Seq::<u8>::empty());
    assert(nul_terminated_list(names) == nul_terminated_list(names.drop_last()) + names.last()
        + seq![0u8]);
    assert(interface_version_bytes(seq![name]) =~= name.spec_bytes() + seq![0u8, 0u8]);
}

/// Adding a name at the end of the list puts every byte of it, then a NUL
/// byte, before the closing NUL byte of the list of the earlier names.
pub proof fn lemma_interface_version_bytes_push(names: Seq<&str>, name: &str)
    ensures
        interface_version_bytes(names.push(name)) == interface_version_bytes(names).drop_last()
            + name.spec_bytes() + seq![0u8, 0u8],
{
    let before = names.map_values(|n: &str| n.spec_bytes());
    let after = names.push(name).map_values(|n: &str| n.spec_bytes());
    assert(after.drop_last() =~= before);
    assert(after.last() == name.spec_bytes());
    assert(nul_terminated_list(after) == nul_terminated_list(before) + name.spec_bytes() + seq![
        0u8,
    ]);
    assert((nul_terminated_list(before) + seq![0u8]).drop_last() =~= nul_terminated_list(before));
    assert(interface_version_bytes(names.push(name)) =~= (nul_terminated_list(before) + seq![0u8]).drop_last()
        + name.spec_bytes() + seq![0u8, 0u8]);
}

/// The length of the list: every byte of every name, one NUL byte per
/// name, and the closing NUL byte.
pub open spec fn total_name_bytes(names: Seq<&str>) -> int
    decreases names.len(),
{
    if names.len() == 0 {
        0
    } else {
        total_name_bytes(names.drop_last()) + names.last().spec_bytes().len()
    }
}

/// The list holds every byte of every name, one NUL byte per name and one
/// closing NUL byte.
pub proof fn lemma_interface_version_bytes_len(names: Seq<&str>)
    ensures
        interface_version_bytes(names).len() == total_name_bytes(names) + names.len() + 1,
    decreases names.len(),
{
    if names.len() == 0 {
        lemma_interface_version_bytes_empty();
        assert(names =~= Seq::<&str>::empty());
    } else {
        let front = names.drop_last();
        lemma_interface_version_bytes_len(front);
        lemma_interface_version_bytes_push(front, names.last());
        assert(front.push(names.last()) =~= names);
    }
}

/// The interface version list handed to the native initialisation: the
/// bytes of each name followed by a NUL byte, and a final NUL byte.
pub fn interface_version_list(interfaces: &Vec<&str>) -> (list: Vec<u8>)
    ensures
        list@ == interface_version_bytes(interfaces@),
{
    let ghost names: Seq<Seq<u8>> = interfaces@.map_values(|name: &str| name.spec_bytes());
    let mut list: Vec<u8> = Vec::new();
    let count: usize = interfaces.len();
    let mut i: usize = 0;
    while i < count
        invariant
            count == interfaces@.len(),
            names == interfaces@.map_values(|name: &str| name.spec_bytes()),
            i <= count,
            list@ == nul_terminated_list(names.take(i as int)),
        decreases count - i,
    {
        let bytes: &[u8] = interfaces[i].as_bytes();
        let ghost before: Seq<u8> = list@;
        let mut j: usize = 0;
        while j < bytes.len()
            invariant
                j <= bytes@.len(),
                list@ == before + bytes@.take(j as int),
            decreases bytes@.len() - j,
        {
            list.push(bytes[j]);
            j = j + 1;
            assert(bytes@.take(j as int) == bytes@.take((j - 1) as int).push(bytes@[j - 1]));
        }
        list.push(0u8);
        assert(bytes@.take(j as int) == bytes@);
        assert(names.take((i + 1) as int).drop_last() == names.take(i as int));
        assert(names.take((i + 1) as int).last() == bytes@);
        i = i + 1;
    }
    assert(names.take(count as int) == names);
    list.push(0u8);
    list
}

/// The ways a game server can run.
#[derive(Debug, Clone, Copy, PartialEq, Eq, Structural)]
pub enum EServerMode {
    /// Not to be used.
    Invalid,
    /// Logins are not authenticated and the server is not listed.
    NoAuthentication,
    /// Logins are authenticated and the server is listed, without VAC.
    Authentication,
    /// Logins are authenticated, the server is listed and VAC protects it.
    AuthenticationAndSecure,
}

impl EServerMode {
    /// The number that stands for the mode in the version 1 interface.
    pub open spec fn spec_v1_code(self) -> u32 {
        match self {
            EServerMode::Invalid => 0,
            EServerMode::NoAuthentication => 1,
            EServerMode::Authentication => 2,
            EServerMode::AuthenticationAndSecure => 3,
        }
    }

    /// The number that stands for the mode in the version 1 interface; every
    /// mode has one.
    pub fn v1_into(&self) -> (r: Option<u32>)
        ensures
            r == Some(self.spec_v1_code()),
    {
        match self {
            EServerMode::Invalid => Some(0),
            EServerMode::NoAuthentication => Some(1),
            EServerMode::Authentication => Some(2),
            EServerMode::AuthenticationAndSecure => Some(3),
        }
    }
}

} // verus!
