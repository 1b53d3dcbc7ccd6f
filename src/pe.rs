//! The CLI header of a managed PE image, and the step from it to the metadata root. Locating
//! bytes inside the PE container (sections, RVAs) is left to the caller.

use crate::bytes::{fits, le_u16, le_u32, read_u16, read_u32};
use crate::errors::MetadataReadError;
use crate::metadata::MetadataReader;
use vstd::prelude::*;

verus! {

/// Runtime flag: the image holds IL only.
pub const COMIMAGE_FLAGS_ILONLY: u32 = 0x00000001;

/// Runtime flag: the image can only be loaded into a 32-bit process.
pub const COMIMAGE_FLAGS_32BITREQUIRED: u32 = 0x00000002;

/// Runtime flag: the image has a strong-name signature.
pub const COMIMAGE_FLAGS_STRONGNAMESIGNED: u32 = 0x00000008;

/// Runtime flag: the entry point is native.
pub const COMIMAGE_FLAGS_NATIVE_ENTRYPOINT: u32 = 0x00000010;

/// Runtime flag: the loader tracks debug data.
pub const COMIMAGE_FLAGS_TRACKDEBUGDATA: u32 = 0x00010000;

/// Byte size of a CLI header.
pub const CLI_HEADER_SIZE: usize = 72;

/// A failure to read a managed PE image.
#[derive(Debug, Clone, Copy, PartialEq, Eq)]
pub enum ReadManagedPeError {
    /// The PE file was not valid.
    InvalidPeFile,
    /// The CLI header was not found.
    MissingCliHeader,
}

/// The address and size of a region of the image.
#[derive(Debug, Clone, Copy, PartialEq, Eq)]
pub struct DataDirectory {
    /// The relative virtual address of the region.
    pub virtual_address: u32,
    /// The size of the region in bytes.
    pub size: u32,
}

/// The directory is what the eight bytes at `off` encode.
pub open spec fn directory_at(s: Seq<u8>, off: int) -> DataDirectory {
    DataDirectory { virtual_address: le_u32(s, off) as u32, size: le_u32(s, off + 4) as u32 }
}

impl DataDirectory {
    /// Decodes a data directory: address, then size.
    pub fn from_bytes(buf: &[u8], offset: &mut usize) -> (r: Option<DataDirectory>)
        ensures
            r is Some <==> fits(buf@, *old(offset) as int, 8),
            r is Some ==> r->0 == directory_at(buf@, *old(offset) as int) && *final(offset)
                == *old(offset) + 8,
    {
        let start = *offset;
        if !(start <= buf.len() && buf.len() - start >= 8) {
            return None;
        }
        let virtual_address = read_u32(buf, offset).unwrap();
        let size = read_u32(buf, offset).unwrap();
        Some(DataDirectory { virtual_address, size })
    }
}

/// The runtime header of a managed image.
#[derive(Debug, Clone, Copy, PartialEq, Eq)]
pub struct CliHeader {
    /// Size of the header, 72.
    pub cb: u32,
    /// Minimum major version of the runtime.
    pub major_runtime_version: u16,
    /// Minor version of the runtime.
    pub minor_runtime_version: u16,
    /// Address and size of the physical metadata.
    pub metadata: DataDirectory,
    /// Runtime flags.
    pub flags: u32,
    /// Token of the entry point's MethodDef or File.
    pub entry_point_token: u32,
    /// Address and size of implementation-specific resources.
    pub resources: DataDirectory,
    /// Address and size of the strong-name hash.
    pub strong_name_signature: DataDirectory,
    /// Always 0.
    pub code_manager_table: DataDirectory,
    /// Address and size of the vtable fixups.
    pub vtable_fixups: DataDirectory,
    /// Always 0.
    pub export_address_table_jumps: DataDirectory,
    /// Always 0.
    pub managed_native_header: DataDirectory,
}

impl CliHeader {
    /// The header is exactly what the 72 bytes at `off` encode.
    pub open spec fn decoded_from(self, s: Seq<u8>, off: int) -> bool {
        &&& self.cb as int == le_u32(s, off)
        &&& self.major_runtime_version as int == le_u16(s, off + 4)
        &&& self.minor_runtime_version as int == le_u16(s, off + 6)
        &&& self.metadata == directory_at(s, off + 8)
        &&& self.flags as int == le_u32(s, off + 16)
        &&& self.entry_point_token as int == le_u32(s, off + 20)
        &&& self.resources == directory_at(s, off + 24)
        &&& self.strong_name_signature == directory_at(s, off + 32)
        &&& self.code_manager_table == directory_at(s, off + 40)
        &&& self.vtable_fixups == directory_at(s, off + 48)
        &&& self.export_address_table_jumps == directory_at(s, off + 56)
        &&& self.managed_native_header == directory_at(s, off + 64)
    }

    /// Decodes a CLI header at the cursor.
    pub fn from_bytes(buf: &[u8], offset: &mut usize) -> (r: Option<CliHeader>)
        ensures
            r is Some <==> fits(buf@, *old(offset) as int, 72),
            r is Some ==> r->0.decoded_from(buf@, *old(offset) as int) && *final(offset)
                == *old(offset) + 72,
    {
        let start = *offset;
        if !(start <= buf.len() && buf.len() - start >= CLI_HEADER_SIZE) {
            return None;
        }
        let cb = read_u32(buf, offset).unwrap();
        let major_runtime_version = read_u16(buf, offset).unwrap();
        let minor_runtime_version = read_u16(buf, offset).unwrap();
        let metadata = DataDirectory::from_bytes(buf, offset).unwrap();
        let flags = read_u32(buf, offset).unwrap();
        let entry_point_token = read_u32(buf, offset).unwrap();
        let resources = DataDirectory::from_bytes(buf, offset).unwrap();
        let strong_name_signature = DataDirectory::from_bytes(buf, offset).unwrap();
        let code_manager_table = DataDirectory::from_bytes(buf, offset).unwrap();
        let vtable_fixups = DataDirectory::from_bytes(buf, offset).unwrap();
        let export_address_table_jumps = DataDirectory::from_bytes(buf, offset).unwrap();
        let managed_native_header = DataDirectory::from_bytes(buf, offset).unwrap();
        Some(
            CliHeader {
                cb,
                major_runtime_version,
                minor_runtime_version,
                metadata,
                flags,
                entry_point_token,
                resources,
                strong_name_signature,
                code_manager_table,
                vtable_fixups,
                export_address_table_jumps,
                managed_native_header,
            },
        )
    }
}

/// A managed image, known by its CLI header.
#[derive(Debug, Clone, Copy, PartialEq, Eq)]
pub struct ManagedPeFile {
    pub header: CliHeader,
}

impl ManagedPeFile {
    /// Builds the image from what its PE container yields: whether the container parsed, and
    /// the bytes of its CLI-header directory, if it has one.
    pub fn from_data(
        container_valid: bool,
        cli_directory: Option<&[u8]>,
    ) -> (r: Result<ManagedPeFile, ReadManagedPeError>)
        ensures
            !container_valid ==> r matches Err(ReadManagedPeError::InvalidPeFile),
            container_valid ==> r == ManagedPeFile::spec_from_pe(cli_directory),
    {
        if !container_valid {
            return Err(ReadManagedPeError::InvalidPeFile);
        }
        ManagedPeFile::from_pe(cli_directory)
    }

    /// What [`ManagedPeFile::from_pe`] yields for the CLI-header directory bytes `d`.
    pub open spec fn spec_from_pe(d: Option<&[u8]>) -> Result<ManagedPeFile, ReadManagedPeError> {
        match d {
            Some(b) => if fits(b@, 0, 72) {
                Ok(ManagedPeFile { header: choose|h: CliHeader| h.decoded_from(b@, 0) })
            } else {
                Err(ReadManagedPeError::MissingCliHeader)
            },
            None => Err(ReadManagedPeError::MissingCliHeader),
        }
    }

    /// Decodes the CLI header from the bytes of the image's CLI-header directory. Fails with
    /// `MissingCliHeader` when there is no such directory or it is too short.
    pub fn from_pe(cli_directory: Option<&[u8]>) -> (r: Result<ManagedPeFile, ReadManagedPeError>)
        ensures
            r is Ok <==> cli_directory is Some && fits(cli_directory->0@, 0, 72),
            r is Err ==> r matches Err(ReadManagedPeError::MissingCliHeader),
            r is Ok ==> r->Ok_0.header.decoded_from(cli_directory->0@, 0),
            r == ManagedPeFile::spec_from_pe(cli_directory),
    {
        let data = match cli_directory {
            Some(d) => d,
            None => {
                return Err(ReadManagedPeError::MissingCliHeader);
            },
        };
        let mut offset: usize = 0;
        match CliHeader::from_bytes(data, &mut offset) {
            Some(header) => {
                let r = ManagedPeFile { header };
                proof {
                    let c = choose|h: CliHeader| h.decoded_from(data@, 0);
                    assert(c.decoded_from(data@, 0));
                    assert(c == header);
                }
                Ok(r)
            },
            None => Err(ReadManagedPeError::MissingCliHeader),
        }
    }

    /// The metadata root: the first `size` bytes, as the CLI header gives it, of `at_rva`,
    /// which holds the image's bytes from the metadata's address on. Fails with `NotEnough`
    /// when those bytes are missing or too few, else as [`MetadataReader::from_bytes`] does.
    pub fn metadata<'a>(&self, at_rva: Option<&'a [u8]>) -> (r: Result<
        MetadataReader<'a>,
        MetadataReadError,
    >)
        ensures
            at_rva is None ==> r matches Err(MetadataReadError::NotEnough),
            at_rva is Some && at_rva->0@.len() < self.header.metadata.size ==> r matches Err(
                MetadataReadError::NotEnough,
            ),
            at_rva is Some && at_rva->0@.len() >= self.header.metadata.size ==> ({
                let root = at_rva->0@.subrange(0, self.header.metadata.size as int);
                &&& !crate::headers::root_header_fits(root, 0) <==> (r matches Err(
                    MetadataReadError::NotEnough,
                ))
                &&& r is Ok <==> crate::headers::root_header_fits(root, 0) && le_u32(root, 0)
                    == crate::headers::METADATA_MAGIC as int
                &&& r is Ok ==> r->Ok_0.spec_bytes() == root
            }),
    {
        let data = match at_rva {
            Some(d) => d,
            None => {
                return Err(MetadataReadError::NotEnough);
            },
        };
        let size = self.header.metadata.size as usize;
        if size > data.len() {
            return Err(MetadataReadError::NotEnough);
        }
        MetadataReader::from_bytes(&data[0..size])
    }
}

} // verus!
