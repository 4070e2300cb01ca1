use crate::authorizor::{allows, DeniedError, RequestAuthorizor};
use crate::files::RequestedFile;
use crate::meta::{describes, file_children, listed, child_logical, metadata_for_file, ChildEntry, FileMetadata, FileStat};
use vstd::prelude::*;

verus! {

/// A requested file whose data the principal may read. Permissions are
/// always checked on the logical path, never on the real one, so that
/// policies do not depend on where the root lies.
pub struct RequestedFileDataReadable {
    pub real_path: String,
    pub logical_path: String,
}

/// A requested file whose data the principal may write.
pub struct RequestedFileDataWritable {
    pub real_path: String,
    pub logical_path: String,
}

/// A readable requested file that is a regular file.
pub struct RequestedRegularFileDataReadable {
    pub real_path: String,
}

/// A writable requested path that is a directory.
pub struct RequestedDirectoryWritable {
    pub real_path: String,
}

/// The entries of a requested directory.
pub struct FileChildren {
    pub children: Vec<FileMetadata>,
}

impl RequestedFileDataReadable {
    /// The file, where the principal may read it.
    pub fn authorize(file: RequestedFile, authorizor: RequestAuthorizor) -> (r: Result<RequestedFileDataReadable, DeniedError>)
        ensures
            match r {
                Ok(f) => allows(authorizor.statements(), "file:Read"@, file.logical_path@)
                    && f.real_path == file.real_path && f.logical_path == file.logical_path,
                Err(e) => !allows(authorizor.statements(), "file:Read"@, file.logical_path@)
                    && e == DeniedError::NotAllowed,
            },
    {
        match authorizor.require("file:Read", file.logical_path.as_str()).ok() {
            Ok(()) => Ok(RequestedFileDataReadable { real_path: file.real_path, logical_path: file.logical_path }),
            Err(e) => Err(e),
        }
    }
}

impl RequestedFileDataWritable {
    /// The file, where the principal may write it.
    pub fn authorize(file: RequestedFile, authorizor: RequestAuthorizor) -> (r: Result<RequestedFileDataWritable, DeniedError>)
        ensures
            match r {
                Ok(f) => allows(authorizor.statements(), "file:Write"@, file.logical_path@)
                    && f.real_path == file.real_path && f.logical_path == file.logical_path,
                Err(e) => !allows(authorizor.statements(), "file:Write"@, file.logical_path@)
                    && e == DeniedError::NotAllowed,
            },
    {
        match authorizor.require("file:Write", file.logical_path.as_str()).ok() {
            Ok(()) => Ok(RequestedFileDataWritable { real_path: file.real_path, logical_path: file.logical_path }),
            Err(e) => Err(e),
        }
    }
}

impl RequestedRegularFileDataReadable {
    /// The readable file, where the filesystem says it is a regular file.
    pub fn from_readable(file: RequestedFileDataReadable, is_file: bool) -> (r: Option<RequestedRegularFileDataReadable>)
        ensures
            match r {
                Some(f) => is_file && f.real_path == file.real_path,
                None => !is_file,
            },
    {
        if is_file {
            Some(RequestedRegularFileDataReadable { real_path: file.real_path })
        } else {
            None
        }
    }
}

impl RequestedDirectoryWritable {
    /// The writable path, where the filesystem says it is a directory.
    pub fn from_writable(file: RequestedFileDataWritable, is_dir: bool) -> (r: Option<RequestedDirectoryWritable>)
        ensures
            match r {
                Some(f) => is_dir && f.real_path == file.real_path,
                None => !is_dir,
            },
    {
        if is_dir {
            Some(RequestedDirectoryWritable { real_path: file.real_path })
        } else {
            None
        }
    }
}

/// The metadata of a requested file, where the principal may read it.
pub fn requested_metadata(file: &RequestedFile, authorizor: &RequestAuthorizor, stat: FileStat) -> (r: Result<FileMetadata, DeniedError>)
    ensures
        match r {
            Ok(m) => allows(authorizor.statements(), "file:Read"@, file.logical_path@)
                && describes(m, file.logical_path@, stat, authorizor),
            Err(e) => !allows(authorizor.statements(), "file:Read"@, file.logical_path@)
                && e == DeniedError::NotAllowed,
        },
{
    if !authorizor.is_allowed("file:Read", file.logical_path.as_str()) {
        return Err(DeniedError::NotAllowed);
    }
    Ok(metadata_for_file(file.logical_path.as_str(), stat, authorizor))
}

impl FileChildren {
    /// The entries of a requested directory, where the principal may read
    /// it; each entry carries the principal's own permissions on it.
    pub fn of_request(file: &RequestedFile, authorizor: &RequestAuthorizor, entries: &Vec<ChildEntry>) -> (r: Result<FileChildren, DeniedError>)
        ensures
            match r {
                Ok(c) => {
                    let kept = listed(file.real_path@, entries@);
                    &&& allows(authorizor.statements(), "file:Read"@, file.logical_path@)
                    &&& c.children@.len() == kept.len()
                    &&& forall|i: int| 0 <= i < kept.len() ==> describes(
                        #[trigger] c.children@[i],
                        child_logical(file.real_path@, file.logical_path@, kept[i].path@)->Some_0,
                        kept[i].stat,
                        authorizor,
                    )
                },
                Err(e) => !allows(authorizor.statements(), "file:Read"@, file.logical_path@)
                    && e == DeniedError::NotAllowed,
            },
    {
        if !authorizor.is_allowed("file:Read", file.logical_path.as_str()) {
            return Err(DeniedError::NotAllowed);
        }
        let children = file_children(file.real_path.as_str(), file.logical_path.as_str(), entries, authorizor);
        Ok(FileChildren { children })
    }
}

} // verus!
