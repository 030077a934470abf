//! The files of the device and the directory that lists them.

use vstd::prelude::*;
use vstd::utf8::{encode_utf8, is_ascii_chars, is_ascii_chars_encode_utf8};
use crate::endian::{be16, be32};
use crate::fw_cfg::defs::{append_bytes, FileDirFile, FileDirFiles, Selector};
use crate::fw_cfg::{Error, FwCfgFile};

verus! {

/// The most bytes that the name of a file may have.
pub const MAX_NAME_LEN: usize = 55;

/// The most files that the selectors from [`Selector::BASE_FILE`] up to
/// [`Selector::BASE_ARCH_LOCAL`] can address.
pub const MAX_FILES: usize = 0x7FE0;

/// The name field of a directory entry: the bytes of the ASCII name, then
/// zero bytes up to the length of the field.
pub open spec fn padded_name(name: Seq<char>) -> Seq<u8> {
    Seq::new(
        FileDirFile::NAME_SIZE as nat,
        |i: int|
            if i < name.len() {
                name[i] as u8
            } else {
                0u8
            },
    )
}

/// A registered file as a mathematical value.
pub struct FileModel {
    /// The name under which the directory lists the file.
    pub name: Seq<char>,
    /// The length that the file reports, or `None` where it could not be
    /// asked.
    pub size: Option<nat>,
    /// The bytes of the file, or `None` where they cannot be read.
    pub content: Option<Seq<u8>>,
}

impl FileModel {
    /// Whether the file can be registered: an ASCII name of at most
    /// [`MAX_NAME_LEN`] bytes and a known length that fits in 32 bits.
    pub open spec fn is_valid(self) -> bool {
        &&& is_ascii_chars(self.name)
        &&& self.name.len() <= MAX_NAME_LEN
        &&& self.size matches Some(size) && size <= u32::MAX
    }

    /// The bytes that the guest reads of the file: none where it cannot be
    /// read.
    pub open spec fn bytes(self) -> Seq<u8> {
        match self.content {
            Some(content) => content,
            None => Seq::empty(),
        }
    }

    /// The name field of the file's directory entry.
    pub open spec fn name_field(self) -> Seq<u8> {
        padded_name(self.name)
    }

    /// The directory entry of the file when it is registered as number
    /// `index`.
    pub open spec fn dir_entry(self, index: int) -> Seq<u8>
        recommends
            self.is_valid(),
            0 <= index < MAX_FILES,
    {
        be32(self.size.unwrap() as u32) + be16((Selector::BASE_FILE + index) as u16) + be16(0)
            + self.name_field()
    }
}

impl Error {
    /// Whether this error is the one that registering `file` brings. The
    /// name is looked at first, then the length; each error carries the
    /// name of the file.
    pub open spec fn reports(self, file: FileModel) -> bool {
        match self {
            Error::FilenameNotAscii(name) => name@ == file.name && !is_ascii_chars(file.name),
            Error::FilenameTooLong(name) => {
                &&& name@ == file.name
                &&& is_ascii_chars(file.name)
                &&& file.name.len() > MAX_NAME_LEN
            },
            Error::MetadataIo(name) => {
                &&& name@ == file.name
                &&& is_ascii_chars(file.name)
                &&& file.name.len() <= MAX_NAME_LEN
                &&& file.size is None
            },
            Error::FileTooBig(name) => {
                &&& name@ == file.name
                &&& is_ascii_chars(file.name)
                &&& file.name.len() <= MAX_NAME_LEN
                &&& file.size matches Some(size) && size > u32::MAX
            },
        }
    }
}

/// The model of one entry of the file table.
pub open spec fn file_model(entry: (String, FwCfgFile)) -> FileModel {
    FileModel { name: entry.0@, size: entry.1.size(), content: entry.1.content() }
}

/// The model of the file table.
pub open spec fn file_models(files: Seq<(String, FwCfgFile)>) -> Seq<FileModel> {
    Seq::new(files.len(), |i: int| file_model(files[i]))
}

/// Whether every file of the table can be registered.
pub open spec fn all_valid(files: Seq<FileModel>) -> bool {
    forall|i: int| 0 <= i < files.len() ==> (#[trigger] files[i]).is_valid()
}

/// Whether `index` is the first file of the table that cannot be
/// registered.
pub open spec fn first_invalid(files: Seq<FileModel>, index: int) -> bool {
    &&& 0 <= index < files.len()
    &&& !files[index].is_valid()
    &&& all_valid(files.take(index))
}

/// The directory entries of `files`, in the order of the table.
pub open spec fn dir_entries(files: Seq<FileModel>) -> Seq<u8>
    decreases files.len(),
{
    if files.len() == 0 {
        Seq::empty()
    } else {
        dir_entries(files.drop_last()) + files.last().dir_entry(files.len() - 1)
    }
}

/// The file directory: the number of files as a big-endian 32-bit number,
/// then one entry of 64 bytes for each file.
pub open spec fn file_dir(files: Seq<FileModel>) -> Seq<u8>
    recommends
        files.len() <= MAX_FILES,
        all_valid(files),
{
    be32(files.len() as u32) + dir_entries(files)
}

/// The name field of a directory entry, or the error of a name that cannot
/// be listed.
fn name_field(name: &String) -> (out: Result<[u8; 56], Error>)
    ensures
        match out {
            Ok(field) => {
                &&& is_ascii_chars(name@)
                &&& name@.len() <= MAX_NAME_LEN
                &&& field@ == padded_name(name@)
            },
            Err(Error::FilenameNotAscii(n)) => n@ == name@ && !is_ascii_chars(name@),
            Err(Error::FilenameTooLong(n)) => {
                &&& n@ == name@
                &&& is_ascii_chars(name@)
                &&& name@.len() > MAX_NAME_LEN
            },
            Err(_) => false,
        },
{
    let text = name.as_str();
    if !text.is_ascii() {
        return Err(Error::FilenameNotAscii(name.clone()));
    }
    proof {
        is_ascii_chars_encode_utf8(name@);
    }
    let bytes = text.as_bytes();
    if bytes.len() > MAX_NAME_LEN {
        return Err(Error::FilenameTooLong(name.clone()));
    }
    let mut field: [u8; 56] = [0; 56];
    let mut index: usize = 0;
    while index < bytes.len()
        invariant
            index <= bytes@.len(),
            bytes@.len() <= MAX_NAME_LEN,
            bytes@ == encode_utf8(name@),
            bytes@.len() == name@.len(),
            forall|i: int| 0 <= i < name@.len() ==> name@[i] as u8 == bytes@[i],
            forall|i: int| 0 <= i < index ==> field@[i] == bytes@[i],
            forall|i: int| index <= i < 56 ==> field@[i] == 0,
        decreases bytes@.len() - index,
    {
        field[index] = bytes[index];
        index += 1;
    }
    Ok(field)
}

/// The size of a file as the directory lists it, or the error of a file
/// whose length is unknown or does not fit.
fn listed_size(name: &String, content: &FwCfgFile) -> (out: Result<u32, Error>)
    ensures
        match out {
            Ok(size) => content.size() == Some(size as nat),
            Err(Error::MetadataIo(n)) => n@ == name@ && content.size() is None,
            Err(Error::FileTooBig(n)) => {
                &&& n@ == name@
                &&& content.size() matches Some(size) && size > u32::MAX
            },
            Err(_) => false,
        },
{
    let size: u64 = match content {
        FwCfgFile::String(s) => s.as_str().as_bytes().len() as u64,
        FwCfgFile::Vec(v) => v.len() as u64,
        FwCfgFile::File(file) => match file.len {
            Some(len) => len,
            None => {
                return Err(Error::MetadataIo(name.clone()));
            },
        },
    };
    if size > u32::MAX as u64 {
        return Err(Error::FileTooBig(name.clone()));
    }
    Ok(size as u32)
}

/// Checks that every file of the table can be registered, and names the
/// first that cannot.
pub fn check_files(files: &[(String, FwCfgFile)]) -> (out: Result<(), Error>)
    ensures
        out is Ok <==> all_valid(file_models(files@)),
        out matches Err(e) ==> exists|i: int|
            first_invalid(file_models(files@), i) && e.reports(
                #[trigger] file_models(files@)[i],
            ),
{
    let ghost models = file_models(files@);
    let mut index: usize = 0;
    while index < files.len()
        invariant
            index <= files@.len(),
            models == file_models(files@),
            all_valid(models.take(index as int)),
        decreases files@.len() - index,
    {
        let (name, content) = &files[index];
        match name_field(name) {
            Ok(_) => {},
            Err(e) => {
                return Err(e);
            },
        }
        match listed_size(name, content) {
            Ok(_) => {},
            Err(e) => {
                assert(first_invalid(models, index as int));
                return Err(e);
            },
        }
        index += 1;
    }
    assert(models.take(index as int) == models);
    Ok(())
}

/// Appends the file directory of `files` to `buf`. Where a file cannot be
/// listed, the directory stops before it: the head and the entries of the
/// files before it are in `buf`, and the error names the file.
pub fn gen_file_dir(buf: &mut Vec<u8>, files: &[(String, FwCfgFile)]) -> (out: Result<(), Error>)
    requires
        files@.len() <= MAX_FILES,
    ensures
        out is Ok <==> all_valid(file_models(files@)),
        out is Ok ==> final(buf)@ == old(buf)@ + file_dir(file_models(files@)),
        out matches Err(e) ==> exists|i: int|
            {
                &&& first_invalid(file_models(files@), i)
                &&& e.reports(#[trigger] file_models(files@)[i])
                &&& final(buf)@ == old(buf)@ + be32(files@.len() as u32) + dir_entries(
                    file_models(files@).take(i),
                )
            },
{
    let ghost models = file_models(files@);
    let head = FileDirFiles { count: files.len() as u32 }.as_bytes();
    append_bytes(buf, head.as_slice());
    let ghost start = buf@;
    let mut index: usize = 0;
    while index < files.len()
        invariant
            index <= files@.len(),
            files@.len() <= MAX_FILES,
            models == file_models(files@),
            all_valid(models.take(index as int)),
            start == old(buf)@ + be32(files@.len() as u32),
            buf@ == start + dir_entries(models.take(index as int)),
        decreases files@.len() - index,
    {
        let (name, content) = &files[index];
        let name_buf = match name_field(name) {
            Ok(field) => field,
            Err(e) => {
                assert(first_invalid(models, index as int));
                return Err(e);
            },
        };
        let size = match listed_size(name, content) {
            Ok(size) => size,
            Err(e) => {
                return Err(e);
            },
        };
        let entry = FileDirFile {
            size,
            select: Selector::BASE_FILE + index as u16,
            reserved: 0,
            name: name_buf,
        };
        let bytes = entry.as_bytes();
        proof {
            let next = models.take(index + 1);
            assert(next.drop_last() == models.take(index as int));
        }
        append_bytes(buf, bytes.as_slice());
        index += 1;
    }
    assert(models.take(index as int) == models);
    Ok(())
}

} // verus!
