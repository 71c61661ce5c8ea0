//! The decisions of the standard file-system client.

use std::collections::VecDeque;

use vstd::prelude::*;
use vstd::string::*;

use crate::config::kinds::WriteType;
use crate::config::settings::GoosefsConfig;
use crate::error::{Error, Result};
use crate::fs::options::CreateFileOptions;
use crate::fs::uri_status::{text_or_empty, URIStatus};
use crate::fs::write_type::{get_write_type_from_xattr, inherited_write_type, WriteTypeXAttr};
use crate::io::write_strategy::{completed_options, WritePolicy};
use crate::proto::{CreateFilePOptions, FileInfo, PMode, WritePType};
use crate::text::{chars_of, drop_trailing, last_before, only, trim_end_char, views};

verus! {

/// The standard file-system client, without its connections.
pub struct BaseFileSystem {
    /// The configuration.
    pub config: GoosefsConfig,
}

/// The path above `path`: what stands before the last slash that is not at the
/// end, or the root. The root, and a path without a slash, have none.
pub open spec fn parent_of(path: Seq<char>) -> Option<Seq<char>> {
    let trimmed = drop_trailing(path, only('/'));
    let slash = last_before(trimmed, '/', trimmed.len() as int);
    if slash < 0 {
        None
    } else if slash == 0 {
        Some(seq!['/'])
    } else {
        Some(trimmed.take(slash))
    }
}

/// The write type of the configuration, or the one of a file without any.
pub open spec fn default_write_type(config: GoosefsConfig) -> WriteType {
    match config.write_type {
        Some(1) => WriteType::MustCache,
        Some(2) => WriteType::TryCache,
        Some(3) => WriteType::CacheThrough,
        Some(4) => WriteType::Through,
        Some(5) => WriteType::AsyncThrough,
        _ => WriteType::MustCache,
    }
}

/// The write type of a new file: the given one, else the one that the directory
/// names, else the one of the configuration.
pub open spec fn effective_write_type(
    config: GoosefsConfig,
    options: CreateFileOptions,
    parent: Option<Result<URIStatus>>,
) -> WriteType {
    match options.write_type {
        WriteTypeXAttr::Explicit(wt) => wt,
        WriteTypeXAttr::Inherit => match parent {
            Some(Ok(status)) => match inherited_write_type(status.xattr@) {
                Some(wt) => wt,
                None => default_write_type(config),
            },
            _ => default_write_type(config),
        },
    }
}

impl BaseFileSystem {
    /// A client with the given configuration.
    pub fn new(config: GoosefsConfig) -> (r: Self)
        ensures
            r.config == config,
    {
        BaseFileSystem { config }
    }

    /// The configuration.
    pub fn config(&self) -> (r: &GoosefsConfig)
        ensures
            *r == self.config,
    {
        &self.config
    }

    /// The path above `path`, if there is one.
    pub fn parent_path(path: &str) -> (r: Option<String>)
        ensures
            match parent_of(path@) {
                Some(p) => r matches Some(s) && s@ == p,
                None => r is None,
            },
    {
        let trimmed = trim_end_char(path, '/');
        let v = chars_of(trimmed);
        let n: usize = v.len();
        let mut end: usize = n;
        while end > 0 && v[end - 1] != '/'
            invariant
                end <= n,
                n == v@.len(),
                v@ == trimmed@,
                last_before(trimmed@, '/', n as int) == last_before(trimmed@, '/', end as int),
            decreases end,
        {
            end = end - 1;
        }
        if end == 0 {
            None
        } else if end == 1 {
            let root = "/".to_string();
            proof {
                reveal_strlit("/");
                assert(root@ =~= seq!['/']);
            }
            Some(root)
        } else {
            let above = trimmed.substring_char(0, end - 1);
            proof {
                assert(above@ =~= trimmed@.take(end - 1));
            }
            Some(above.to_owned())
        }
    }

    /// The directory whose attributes decide the write type of a new file.
    /// There is none if the write type is given.
    pub fn directory_to_inspect(path: &str, options: &CreateFileOptions) -> (r: Option<String>)
        ensures
            match options.write_type {
                WriteTypeXAttr::Explicit(_) => r is None,
                WriteTypeXAttr::Inherit => match parent_of(path@) {
                    Some(p) => r matches Some(s) && s@ == p,
                    None => r is None,
                },
            },
    {
        match options.write_type {
            WriteTypeXAttr::Explicit(_) => None,
            WriteTypeXAttr::Inherit => BaseFileSystem::parent_path(path),
        }
    }

    /// The write type of a new file. `parent` is what was learnt of the
    /// directory, where it was looked at; a directory that could not be looked
    /// at counts as one that names no write type.
    pub fn resolve_write_type(
        &self,
        options: &CreateFileOptions,
        parent: &Option<Result<URIStatus>>,
    ) -> (r: WriteType)
        ensures
            r == effective_write_type(self.config, *options, *parent),
    {
        if let WriteTypeXAttr::Explicit(wt) = options.write_type {
            return wt;
        }
        if let Some(Ok(status)) = parent {
            if let Some(wt) = get_write_type_from_xattr(&status.xattr) {
                return wt;
            }
        }
        if let Some(proto) = self.config.get_write_type() {
            if let Ok(wt) = WriteType::try_from_proto(proto) {
                return wt;
            }
        }
        WriteType::MustCache
    }

    /// The options with which the master creates the file.
    pub fn create_options(options: &CreateFileOptions, write_type: WriteType) -> (r:
        CreateFilePOptions)
        ensures
            r == requested(*options, write_type),
    {
        let proto = WritePType::from(write_type);
        CreateFilePOptions {
            block_size_bytes: options.block_size_bytes,
            recursive: Some(options.recursive),
            mode: None,
            write_type: Some(proto.as_i32()),
            replication_max: options.replication_max,
        }
    }

    /// Whether a path exists, given what came of asking for its status. A file
    /// that is still being written does not exist yet, and a failure other than
    /// that there is no such path is handed on.
    pub fn path_exists(outcome: Result<URIStatus>) -> (r: Result<bool>)
        ensures
            r == (match outcome {
                Ok(status) => Ok::<bool, Error>(status.readable()),
                Err(e) => if e is NotFound {
                    Ok(false)
                } else {
                    Err(e)
                },
            }),
    {
        match outcome {
            Ok(status) => Ok(status.is_readable()),
            Err(Error::NotFound { .. }) => Ok(false),
            Err(e) => Err(e),
        }
    }
}

/// The options that a caller asks for, with the write type that was found for them.
pub open spec fn requested(options: CreateFileOptions, write_type: WriteType) -> CreateFilePOptions {
    CreateFilePOptions {
        block_size_bytes: options.block_size_bytes,
        recursive: Some(options.recursive),
        mode: None,
        write_type: Some(write_type.proto().number()),
        replication_max: options.replication_max,
    }
}

/// What a caller asks for reaches the master: completing the options keeps the write
/// type, the replication factor, whether directories are created, and a block size
/// other than zero.
pub proof fn law_requested_options_are_kept(
    options: CreateFileOptions,
    write_type: WriteType,
    policy: WritePolicy,
    default_mode: PMode,
)
    ensures
        ({
            let sent = completed_options(requested(options, write_type), policy, default_mode);
            &&& sent.write_type == Some(write_type.proto().number())
            &&& sent.replication_max == options.replication_max
            &&& sent.recursive == Some(options.recursive)
            &&& (options.block_size_bytes matches Some(n) && n != 0) ==> sent.block_size_bytes
                == options.block_size_bytes
        }),
{
}

/// Whether the statuses say what the reports say, place by place.
pub open spec fn all_described(statuses: Seq<URIStatus>, reports: Seq<FileInfo>) -> bool {
    &&& statuses.len() == reports.len()
    &&& forall|i: int|
        0 <= i < statuses.len() ==> (#[trigger] statuses[i]).described_by(reports[i])
}

/// The paths of the directories among the reported entries, in order.
pub open spec fn directories(reports: Seq<FileInfo>) -> Seq<Seq<char>>
    decreases reports.len(),
{
    if reports.len() == 0 {
        Seq::empty()
    } else {
        let before = directories(reports.drop_last());
        if reports.last().folder == Some(true) {
            before.push(text_or_empty(reports.last().path))
        } else {
            before
        }
    }
}

/// The statuses of the entries of one directory.
pub fn statuses_of(reports: Vec<FileInfo>) -> (r: Vec<URIStatus>)
    ensures
        all_described(r@, reports@),
{
    let ghost all = reports@;
    let mut out: Vec<URIStatus> = Vec::new();
    for fi in it: reports
        invariant
            it.seq() == all,
            out@.len() == it.index(),
            forall|i: int|
                0 <= i < out@.len() ==> (#[trigger] out@[i]).described_by(all[i]),
    {
        out.push(URIStatus::from_proto(fi));
    }
    out
}

/// A recursive listing, one directory at a time. Directories are listed in the
/// order in which they were found.
pub struct TreeListing {
    /// The directories that are still to be listed.
    pub queue: VecDeque<String>,
    /// The entries that were found.
    pub found: Vec<URIStatus>,
}

impl TreeListing {
    /// A listing that starts at `path`.
    pub fn new(path: &str) -> (r: Self)
        ensures
            views(r.queue@) == seq![path@],
            r.found@.len() == 0,
    {
        let mut queue: VecDeque<String> = VecDeque::new();
        queue.push_back(path.to_owned());
        proof {
            assert(views(queue@) =~= seq![path@]);
        }
        TreeListing { queue, found: Vec::new() }
    }

    /// The directory to list next, which is taken off the queue.
    pub fn next_directory(&mut self) -> (r: Option<String>)
        ensures
            final(self).found == old(self).found,
            match r {
                Some(path) => {
                    &&& old(self).queue@.len() > 0
                    &&& path == old(self).queue@[0]
                    &&& final(self).queue@ == old(self).queue@.skip(1)
                },
                None => old(self).queue@.len() == 0 && final(self).queue@.len() == 0,
            },
    {
        let next = self.queue.pop_front();
        proof {
            if next is Some {
                assert(self.queue@ =~= old(self).queue@.skip(1));
            }
        }
        next
    }

    /// Takes in the entries of a directory: all of them are found, and the
    /// directories among them are listed later.
    pub fn listed(&mut self, reports: Vec<FileInfo>)
        ensures
            views(final(self).queue@) == views(old(self).queue@) + directories(reports@),
            final(self).found@.len() == old(self).found@.len() + reports@.len(),
            final(self).found@.take(old(self).found@.len() as int) == old(self).found@,
            all_described(final(self).found@.skip(old(self).found@.len() as int), reports@),
    {
        let ghost all = reports@;
        let ghost queued = views(self.queue@);
        let ghost before = self.found@;
        proof {
            assert(queued + directories(all.take(0)) =~= queued);
        }
        for fi in it: reports
            invariant
                it.seq() == all,
                views(self.queue@) == queued + directories(all.take(it.index())),
                self.found@.len() == before.len() + it.index(),
                self.found@.take(before.len() as int) == before,
                forall|i: int|
                    0 <= i < it.index() ==> #[trigger] self.found@[before.len() + i].described_by(
                        all[i],
                    ),
        {
            let ghost done = it.index();
            let ghost waiting = self.queue@;
            let ghost so_far = self.found@;
            proof {
                assert(all.take(done + 1).drop_last() =~= all.take(done));
                assert(all.take(done + 1).last() == fi);
            }
            let status = URIStatus::from_proto(fi);
            if status.is_folder() {
                let path = status.path.clone();
                self.queue.push_back(path);
                proof {
                    assert(views(waiting.push(path)) =~= views(waiting).push(path@));
                    assert((queued + directories(all.take(done))).push(path@) =~= queued
                        + directories(all.take(done)).push(path@));
                }
            }
            self.found.push(status);
            proof {
                assert(self.found@.take(before.len() as int) =~= so_far.take(before.len() as int));
            }
        }
        proof {
            assert(all.take(all.len() as int) =~= all);
            let added = self.found@.skip(before.len() as int);
            assert forall|i: int| 0 <= i < added.len() implies (#[trigger] added[i]).described_by(
                all[i],
            ) by {
                assert(added[i] == self.found@[before.len() + i]);
            }
        }
    }

    /// The entries that were found, once no directory is left.
    pub fn finish(self) -> (r: Vec<URIStatus>)
        ensures
            r == self.found,
    {
        self.found
    }
}

/// The directories that wait to be listed, after directories with the given
/// entries were taken off the queue and listed in turn.
pub open spec fn waiting_after(path: Seq<char>, listings: Seq<Seq<FileInfo>>) -> Seq<Seq<char>>
    decreases listings.len(),
{
    if listings.len() == 0 {
        seq![path]
    } else {
        waiting_after(path, listings.drop_last()).skip(1) + directories(listings.last())
    }
}

/// The directories that were found, after directories with the given entries
/// were listed in turn.
pub open spec fn found_directories(path: Seq<char>, listings: Seq<Seq<FileInfo>>) -> Seq<Seq<char>>
    decreases listings.len(),
{
    if listings.len() == 0 {
        seq![path]
    } else {
        found_directories(path, listings.drop_last()) + directories(listings.last())
    }
}

/// A recursive listing lists every directory that it finds exactly once, in the
/// order in which it finds them: after so many listings, those that wait are
/// the ones found behind the first so many. So when none waits, every one of
/// them has been listed.
pub proof fn law_every_directory_is_listed_once(path: Seq<char>, listings: Seq<Seq<FileInfo>>)
    requires
        forall|k: int|
            0 <= k < listings.len() ==> waiting_after(path, #[trigger] listings.take(k)).len() > 0,
    ensures
        listings.len() <= found_directories(path, listings).len(),
        waiting_after(path, listings) == found_directories(path, listings).skip(
            listings.len() as int,
        ),
        waiting_after(path, listings).len() == 0 ==> listings.len() == found_directories(
            path,
            listings,
        ).len(),
    decreases listings.len(),
{
    if listings.len() > 0 {
        let before = listings.drop_last();
        let n = before.len() as int;
        assert(before =~= listings.take(n));
        assert forall|k: int| 0 <= k < before.len() implies waiting_after(
            path,
            #[trigger] before.take(k),
        ).len() > 0 by {
            assert(before.take(k) =~= listings.take(k));
        }
        law_every_directory_is_listed_once(path, before);
        let found = found_directories(path, before);
        let dirs = directories(listings.last());
        assert(waiting_after(path, before).skip(1) =~= found.skip(n + 1));
        assert(found.skip(n + 1) + dirs =~= (found + dirs).skip(n + 1));
    } else {
        assert(seq![path].skip(0) =~= seq![path]);
    }
}

/// A given write type is used whatever the directory and the configuration say,
/// and the write type of the directory outranks that of the configuration.
pub proof fn law_write_type_precedence(
    config: GoosefsConfig,
    options: CreateFileOptions,
    parent: Option<Result<URIStatus>>,
    wt: WriteType,
)
    ensures
        options.write_type == WriteTypeXAttr::Explicit(wt) ==> effective_write_type(
            config,
            options,
            parent,
        ) == wt,
        options.write_type is Inherit && parent is Some && parent->0 is Ok && inherited_write_type(
            parent->0->Ok_0.xattr@,
        ) == Some(wt) ==> effective_write_type(config, options, parent) == wt,
        options.write_type is Inherit && (parent is None || parent->0 is Err)
            ==> effective_write_type(config, options, parent) == default_write_type(config),
{
}

} // verus!
