//! Layout and consistency decisions for an application's disk image: two GPT
//! partitions, `image` and `data`, whose sizes are given in MiB.
use vstd::prelude::*;
use crate::text::{append_decimal, decimal, digits_in_base, join_path, owned, path_join};

verus! {

/// Largest partition a client may request, in MiB (100 GiB).
pub const MAX_PARTITION_SIZE_MB: u32 = 102400;

/// Size of a logical block of the disk image, in bytes.
pub const LBA_SIZE: u64 = 512;

/// Sectors taken by the primary GPT header and entries.
pub const PRIMARY_GPT_LBA_SECTORS: u64 = 34;

/// Sectors taken by the backup GPT header and entries.
pub const BACKUP_GPT_LBA_SECTORS: u64 = 34;

/// Bytes in one MiB.
pub open spec fn mib() -> nat {
    1048576
}

/// File name of the disk image inside an application's directory.
pub open spec fn disk_name() -> Seq<char> {
    "disk.raw"@
}

/// Name of the partition holding the application image.
pub open spec fn image_partition_name() -> Seq<char> {
    "image"@
}

/// Name of the partition holding the application data.
pub open spec fn data_partition_name() -> Seq<char> {
    "data"@
}

/// Errors of the disk manager.
#[derive(Debug, Clone, PartialEq, Eq)]
pub enum ApplicationDiskManagerError {
    RequestedEmptyPartition(),
    RequestedTooBigPartition(String),
    DiskCreation(String),
    DiskDeletion(String),
    PartitionMetadataWrite(String),
    GPTConfiguration(String),
    GPTUpdate(String),
    PartitionCreation(String),
    GPTRead(String),
    GPTSave(String),
    FileShutdown(String),
    GetPartitionSize(String),
    DataPartitionNotFound(),
    ImagePartitionNotFound(),
    DataPartitionSizeIncorrect(),
    ImagePartitionSizeIncorrect(),
}

/// The mathematical value of an `ApplicationDiskManagerError`.
pub enum DiskErrorView {
    RequestedEmptyPartition,
    RequestedTooBigPartition(Seq<char>),
    DiskCreation(Seq<char>),
    DiskDeletion(Seq<char>),
    PartitionMetadataWrite(Seq<char>),
    GPTConfiguration(Seq<char>),
    GPTUpdate(Seq<char>),
    PartitionCreation(Seq<char>),
    GPTRead(Seq<char>),
    GPTSave(Seq<char>),
    FileShutdown(Seq<char>),
    GetPartitionSize(Seq<char>),
    DataPartitionNotFound,
    ImagePartitionNotFound,
    DataPartitionSizeIncorrect,
    ImagePartitionSizeIncorrect,
}

impl View for ApplicationDiskManagerError {
    type V = DiskErrorView;

    open spec fn view(&self) -> DiskErrorView {
        match self {
            ApplicationDiskManagerError::RequestedEmptyPartition() => DiskErrorView::RequestedEmptyPartition,
            ApplicationDiskManagerError::RequestedTooBigPartition(m) => DiskErrorView::RequestedTooBigPartition(m@),
            ApplicationDiskManagerError::DiskCreation(m) => DiskErrorView::DiskCreation(m@),
            ApplicationDiskManagerError::DiskDeletion(m) => DiskErrorView::DiskDeletion(m@),
            ApplicationDiskManagerError::PartitionMetadataWrite(m) => DiskErrorView::PartitionMetadataWrite(m@),
            ApplicationDiskManagerError::GPTConfiguration(m) => DiskErrorView::GPTConfiguration(m@),
            ApplicationDiskManagerError::GPTUpdate(m) => DiskErrorView::GPTUpdate(m@),
            ApplicationDiskManagerError::PartitionCreation(m) => DiskErrorView::PartitionCreation(m@),
            ApplicationDiskManagerError::GPTRead(m) => DiskErrorView::GPTRead(m@),
            ApplicationDiskManagerError::GPTSave(m) => DiskErrorView::GPTSave(m@),
            ApplicationDiskManagerError::FileShutdown(m) => DiskErrorView::FileShutdown(m@),
            ApplicationDiskManagerError::GetPartitionSize(m) => DiskErrorView::GetPartitionSize(m@),
            ApplicationDiskManagerError::DataPartitionNotFound() => DiskErrorView::DataPartitionNotFound,
            ApplicationDiskManagerError::ImagePartitionNotFound() => DiskErrorView::ImagePartitionNotFound,
            ApplicationDiskManagerError::DataPartitionSizeIncorrect() => DiskErrorView::DataPartitionSizeIncorrect,
            ApplicationDiskManagerError::ImagePartitionSizeIncorrect() => DiskErrorView::ImagePartitionSizeIncorrect,
        }
    }
}

/// A result whose error is taken by its view.
pub open spec fn disk_result<T>(r: Result<T, ApplicationDiskManagerError>) -> Result<T, DiskErrorView> {
    match r {
        Ok(v) => Ok(v),
        Err(e) => Err(e@),
    }
}

/// The message of a request for more than the maximal partition size.
pub open spec fn too_big_message(size_mb: nat) -> Seq<char> {
    "Requested size is: "@ + decimal(size_mb) + ", maximum size is: "@ + decimal(
        MAX_PARTITION_SIZE_MB as nat,
    ) + "."@
}

/// Checking a requested partition size (MiB) and converting it to bytes.
pub open spec fn spec_validate_size(size_mb: u32) -> Result<u64, DiskErrorView> {
    if size_mb > MAX_PARTITION_SIZE_MB {
        Err(DiskErrorView::RequestedTooBigPartition(too_big_message(size_mb as nat)))
    } else if size_mb == 0 {
        Err(DiskErrorView::RequestedEmptyPartition)
    } else {
        Ok((size_mb * mib()) as u64)
    }
}

/// A byte size that some accepted request in MiB converts to.
pub open spec fn valid_partition_bytes(bytes: nat) -> bool {
    &&& bytes % mib() == 0
    &&& mib() <= bytes <= MAX_PARTITION_SIZE_MB * mib()
}

/// A partition entry as read from the disk's GPT, in table order.
#[derive(Debug)]
pub struct PartitionInfo {
    pub name: String,
    pub part_guid: u128,
    pub first_lba: u64,
    pub last_lba: u64,
}

/// The length of a partition in bytes, or the message of the failure, as
/// `gpt::partition::Partition::bytes_len` computes it with 512-byte blocks.
pub open spec fn spec_bytes_len(first_lba: u64, last_lba: u64) -> Result<u64, Seq<char>> {
    if last_lba < first_lba {
        Err("partition length underflow - sectors"@)
    } else if last_lba - first_lba + 1 > u64::MAX {
        Err("partition length overflow - sectors"@)
    } else if (last_lba - first_lba + 1) * 512 > u64::MAX {
        Err("partition length overflow - bytes"@)
    } else {
        Ok(((last_lba - first_lba + 1) * 512) as u64)
    }
}

impl PartitionInfo {
    /// The length of the partition in bytes (see `spec_bytes_len`).
    pub fn bytes_len(&self) -> (r: Result<u64, String>)
        ensures
            match r {
                Ok(n) => spec_bytes_len(self.first_lba, self.last_lba) == Ok::<u64, Seq<char>>(n),
                Err(m) => spec_bytes_len(self.first_lba, self.last_lba) == Err::<u64, Seq<char>>(m@),
            },
    {
        if self.last_lba < self.first_lba {
            Err(owned("partition length underflow - sectors"))
        } else if self.last_lba - self.first_lba == u64::MAX {
            Err(owned("partition length overflow - sectors"))
        } else {
            let sectors = self.last_lba - self.first_lba + 1;
            if sectors > u64::MAX / 512 {
                Err(owned("partition length overflow - bytes"))
            } else {
                Ok(sectors * 512)
            }
        }
    }

    /// A copy of the entry.
    pub fn duplicate(&self) -> (r: PartitionInfo)
        ensures
            r == *self,
    {
        PartitionInfo {
            name: self.name.clone(),
            part_guid: self.part_guid,
            first_lba: self.first_lba,
            last_lba: self.last_lba,
        }
    }
}

/// Index of the last entry named `name`, or -1. Reading the table into a map
/// keyed by name keeps the last entry of each name.
pub open spec fn last_index_named(parts: Seq<PartitionInfo>, name: Seq<char>) -> int
    decreases parts.len(),
{
    if parts.len() == 0 {
        -1
    } else if parts.last().name@ == name {
        parts.len() - 1
    } else {
        last_index_named(parts.drop_last(), name)
    }
}

proof fn lemma_last_index_range(parts: Seq<PartitionInfo>, name: Seq<char>)
    ensures
        -1 <= last_index_named(parts, name) < parts.len(),
        last_index_named(parts, name) >= 0 ==> parts[last_index_named(parts, name)].name@ == name,
    decreases parts.len(),
{
    if parts.len() > 0 {
        lemma_last_index_range(parts.drop_last(), name);
    }
}

/// Looking up the partition named `name`.
pub open spec fn spec_lookup(
    parts: Seq<PartitionInfo>,
    name: Seq<char>,
    missing: DiskErrorView,
) -> Result<PartitionInfo, DiskErrorView> {
    let i = last_index_named(parts, name);
    if i < 0 {
        Err(missing)
    } else {
        Ok(parts[i])
    }
}

/// Checking that a partition has the expected size in bytes.
pub open spec fn spec_check_size(
    part: PartitionInfo,
    expected: nat,
    incorrect: DiskErrorView,
) -> Result<(), DiskErrorView> {
    match spec_bytes_len(part.first_lba, part.last_lba) {
        Err(m) => Err(DiskErrorView::GetPartitionSize(m)),
        Ok(n) => if n != expected {
            Err(incorrect)
        } else {
            Ok(())
        },
    }
}

/// The abstract state of a disk manager: where the disk lives and the sizes
/// its two partitions must have.
pub struct DiskManagerView {
    pub file_path: Seq<char>,
    pub image_bytes: nat,
    pub data_bytes: nat,
}

/// Checking the partitions read from the disk against the expected layout:
/// both partitions exist (image looked up first) and have the expected sizes
/// (image checked first).
pub open spec fn spec_ensure_partitions(
    m: DiskManagerView,
    parts: Seq<PartitionInfo>,
) -> Result<(), DiskErrorView> {
    match spec_lookup(parts, image_partition_name(), DiskErrorView::ImagePartitionNotFound) {
        Err(e) => Err(e),
        Ok(image) => match spec_lookup(
            parts,
            data_partition_name(),
            DiskErrorView::DataPartitionNotFound,
        ) {
            Err(e) => Err(e),
            Ok(data) => match spec_check_size(
                image,
                m.image_bytes,
                DiskErrorView::ImagePartitionSizeIncorrect,
            ) {
                Err(e) => Err(e),
                Ok(_) => spec_check_size(data, m.data_bytes, DiskErrorView::DataPartitionSizeIncorrect),
            },
        },
    }
}

/// Total size of the disk image in bytes: both partitions and both GPT copies.
pub open spec fn spec_total_size(m: DiskManagerView) -> nat {
    m.data_bytes + m.image_bytes + (34 + 34) * 512
}

/// Decides the layout of an application's disk image.
pub struct ApplicationDiskManager {
    file_path: String,
    image_part_bytes_size: u64,
    data_part_bytes_size: u64,
}

impl View for ApplicationDiskManager {
    type V = DiskManagerView;

    closed spec fn view(&self) -> DiskManagerView {
        DiskManagerView {
            file_path: self.file_path@,
            image_bytes: self.image_part_bytes_size as nat,
            data_bytes: self.data_part_bytes_size as nat,
        }
    }
}

impl ApplicationDiskManager {
    #[verifier::type_invariant]
    spec fn sizes_valid(self) -> bool {
        &&& valid_partition_bytes(self.image_part_bytes_size as nat)
        &&& valid_partition_bytes(self.data_part_bytes_size as nat)
    }

    /// File name of the disk image inside the application's directory.
    pub fn disk_name() -> (r: &'static str)
        ensures
            r@ == disk_name(),
    {
        "disk.raw"
    }

    /// Checks a requested partition size in MiB and converts it to bytes:
    /// sizes above 100 GiB and empty partitions are refused.
    pub fn validate_and_convert_to_bytes(partition_size_mb: u32) -> (r: Result<
        u64,
        ApplicationDiskManagerError,
    >)
        ensures
            disk_result(r) == spec_validate_size(partition_size_mb),
            r is Ok ==> valid_partition_bytes(r->Ok_0 as nat),
    {
        if partition_size_mb > MAX_PARTITION_SIZE_MB {
            let mut message = owned("Requested size is: ");
            append_decimal(&mut message, partition_size_mb as u64);
            message.append(", maximum size is: ");
            append_decimal(&mut message, MAX_PARTITION_SIZE_MB as u64);
            message.append(".");
            assert(message@ =~= too_big_message(partition_size_mb as nat));
            Err(ApplicationDiskManagerError::RequestedTooBigPartition(message))
        } else if partition_size_mb == 0 {
            Err(ApplicationDiskManagerError::RequestedEmptyPartition())
        } else {
            let bytes = partition_size_mb as u64 * 1024 * 1024;
            assert((bytes as nat) % 1048576 == 0 && 1048576 <= bytes <= 102400 * 1048576)
                by (nonlinear_arith)
                requires
                    bytes == partition_size_mb * 1048576,
                    1 <= partition_size_mb <= 102400,
            ;
            Ok(bytes)
        }
    }

    /// A manager for the disk `disk.raw` inside `workdir_path`. The data size
    /// is checked before the image size; the first refusal is returned.
    pub fn new(workdir_path: &str, image_partition_size_mb: u32, data_partition_size_mb: u32) -> (r:
        Result<Self, ApplicationDiskManagerError>)
        ensures
            spec_validate_size(data_partition_size_mb) is Err ==> disk_result(r) == Err::<
                Self,
                DiskErrorView,
            >(spec_validate_size(data_partition_size_mb)->Err_0),
            spec_validate_size(data_partition_size_mb) is Ok && spec_validate_size(
                image_partition_size_mb,
            ) is Err ==> disk_result(r) == Err::<Self, DiskErrorView>(
                spec_validate_size(image_partition_size_mb)->Err_0,
            ),
            spec_validate_size(data_partition_size_mb) is Ok && spec_validate_size(
                image_partition_size_mb,
            ) is Ok <==> r is Ok,
            r matches Ok(m) ==> (m@ == DiskManagerView {
                file_path: path_join(workdir_path@, disk_name()),
                image_bytes: spec_validate_size(image_partition_size_mb)->Ok_0 as nat,
                data_bytes: spec_validate_size(data_partition_size_mb)->Ok_0 as nat,
            }),
    {
        let data_partition_size = match Self::validate_and_convert_to_bytes(
            data_partition_size_mb,
        ) {
            Ok(v) => v,
            Err(e) => return Err(e),
        };
        let image_partition_size = match Self::validate_and_convert_to_bytes(
            image_partition_size_mb,
        ) {
            Ok(v) => v,
            Err(e) => return Err(e),
        };
        let file_path = join_path(workdir_path, Self::disk_name());
        Ok(ApplicationDiskManager {
            file_path,
            image_part_bytes_size: image_partition_size,
            data_part_bytes_size: data_partition_size,
        })
    }

    /// Path of the disk image file.
    pub fn file_path(&self) -> (r: &str)
        ensures
            r@ == self@.file_path,
    {
        self.file_path.as_str()
    }

    /// Expected size of the image partition in bytes.
    pub fn image_part_bytes_size(&self) -> (r: u64)
        ensures
            r == self@.image_bytes,
            valid_partition_bytes(r as nat),
    {
        proof {
            use_type_invariant(self);
        }
        self.image_part_bytes_size
    }

    /// Expected size of the data partition in bytes.
    pub fn data_part_bytes_size(&self) -> (r: u64)
        ensures
            r == self@.data_bytes,
            valid_partition_bytes(r as nat),
    {
        proof {
            use_type_invariant(self);
        }
        self.data_part_bytes_size
    }

    /// Total size of the disk image in bytes: both partitions plus the
    /// primary and the backup GPT (34 sectors of 512 bytes each).
    pub fn calculate_total_size(&self) -> (r: u64)
        ensures
            r == spec_total_size(self@),
    {
        proof {
            use_type_invariant(self);
        }
        self.data_part_bytes_size + self.image_part_bytes_size + ((PRIMARY_GPT_LBA_SECTORS
            + BACKUP_GPT_LBA_SECTORS) * LBA_SIZE)
    }

    /// Offset of the last byte of the disk image, written to give the file its size.
    pub fn last_byte_offset(&self) -> (r: u64)
        ensures
            r == spec_total_size(self@) - 1,
    {
        self.calculate_total_size() - 1
    }

    /// Size, in logical blocks, that the protective MBR declares: all blocks
    /// of the disk but the MBR's own.
    pub fn protective_mbr_size(&self) -> (r: u32)
        ensures
            r == spec_total_size(self@) / 512 - 1,
    {
        proof {
            use_type_invariant(self);
        }
        let total = self.calculate_total_size();
        (total / LBA_SIZE - 1) as u32
    }

    /// The partitions to create, in order: name and size in bytes.
    pub fn partition_layout(&self) -> (r: Vec<(String, u64)>)
        ensures
            r@.len() == 2,
            r@[0].0@ == image_partition_name(),
            r@[0].1 == self@.image_bytes,
            r@[1].0@ == data_partition_name(),
            r@[1].1 == self@.data_bytes,
    {
        let mut r = Vec::new();
        r.push((owned("image"), self.image_part_bytes_size));
        r.push((owned("data"), self.data_part_bytes_size));
        r
    }

    fn find_named(partitions: &Vec<PartitionInfo>, name: &str) -> (r: Option<usize>)
        ensures
            match r {
                Some(i) => i == last_index_named(partitions@, name@) && i < partitions@.len(),
                None => last_index_named(partitions@, name@) == -1,
            },
    {
        let ghost parts = partitions@;
        let target = owned(name);
        let mut found: Option<usize> = None;
        let mut i: usize = 0;
        while i < partitions.len()
            invariant
                i <= partitions@.len(),
                parts == partitions@,
                target@ == name@,
                match found {
                    Some(k) => k == last_index_named(parts.take(i as int), name@) && k < i,
                    None => last_index_named(parts.take(i as int), name@) == -1,
                },
            decreases partitions@.len() - i,
        {
            assert(parts.take(i + 1).drop_last() =~= parts.take(i as int));
            if partitions[i].name == target {
                found = Some(i);
            }
            i = i + 1;
        }
        assert(parts.take(i as int) =~= parts);
        found
    }

    /// The image partition: the last entry named `image`.
    pub fn get_image_partition(&self, partitions: &Vec<PartitionInfo>) -> (r: Result<
        PartitionInfo,
        ApplicationDiskManagerError,
    >)
        ensures
            disk_result(r) == spec_lookup(
                partitions@,
                image_partition_name(),
                DiskErrorView::ImagePartitionNotFound,
            ),
    {
        match Self::find_named(partitions, "image") {
            Some(i) => Ok(partitions[i].duplicate()),
            None => Err(ApplicationDiskManagerError::ImagePartitionNotFound()),
        }
    }

    /// The data partition: the last entry named `data`.
    pub fn get_data_partition(&self, partitions: &Vec<PartitionInfo>) -> (r: Result<
        PartitionInfo,
        ApplicationDiskManagerError,
    >)
        ensures
            disk_result(r) == spec_lookup(
                partitions@,
                data_partition_name(),
                DiskErrorView::DataPartitionNotFound,
            ),
    {
        match Self::find_named(partitions, "data") {
            Some(i) => Ok(partitions[i].duplicate()),
            None => Err(ApplicationDiskManagerError::DataPartitionNotFound()),
        }
    }

    fn check_size(part: &PartitionInfo, expected: u64, image: bool) -> (r: Result<
        (),
        ApplicationDiskManagerError,
    >)
        ensures
            disk_result(r) == spec_check_size(
                *part,
                expected as nat,
                if image {
                    DiskErrorView::ImagePartitionSizeIncorrect
                } else {
                    DiskErrorView::DataPartitionSizeIncorrect
                },
            ),
    {
        match part.bytes_len() {
            Err(m) => Err(ApplicationDiskManagerError::GetPartitionSize(m)),
            Ok(n) => if n != expected {
                if image {
                    Err(ApplicationDiskManagerError::ImagePartitionSizeIncorrect())
                } else {
                    Err(ApplicationDiskManagerError::DataPartitionSizeIncorrect())
                }
            } else {
                Ok(())
            },
        }
    }

    /// Checks the partitions read from the disk against the expected layout.
    pub fn ensure_partitions_correctness(&self, partitions: &Vec<PartitionInfo>) -> (r: Result<
        (),
        ApplicationDiskManagerError,
    >)
        ensures
            disk_result(r) == spec_ensure_partitions(self@, partitions@),
    {
        let image = match self.get_image_partition(partitions) {
            Ok(p) => p,
            Err(e) => return Err(e),
        };
        let data = match self.get_data_partition(partitions) {
            Ok(p) => p,
            Err(e) => return Err(e),
        };
        match Self::check_size(&image, self.image_part_bytes_size, true) {
            Ok(()) => {},
            Err(e) => return Err(e),
        }
        Self::check_size(&data, self.data_part_bytes_size, false)
    }

    /// Whether the disk must be (re)created: reading its partition table failed
    /// or the partitions read do not match the expected layout.
    pub fn needs_creation(&self, read: &Result<Vec<PartitionInfo>, String>) -> (r: bool)
        ensures
            r == match read {
                Err(_) => true,
                Ok(parts) => spec_ensure_partitions(self@, parts@) is Err,
            },
    {
        match read {
            Err(_) => true,
            Ok(parts) => self.ensure_partitions_correctness(parts).is_err(),
        }
    }

    /// Applies new partition sizes (MiB) to a disk whose current partitions are
    /// `partitions`. The current layout must be correct; then the image size and
    /// the data size are checked, in that order. Returns whether the sizes
    /// changed, in which case the disk must be recreated with the new sizes.
    pub fn update_partitions_if_sizes_differ(
        &mut self,
        partitions: &Vec<PartitionInfo>,
        new_data_part_size_mb: u32,
        new_image_part_size_mb: u32,
    ) -> (r: Result<bool, ApplicationDiskManagerError>)
        ensures
            spec_ensure_partitions(old(self)@, partitions@) is Err ==> disk_result(r) == Err::<
                bool,
                DiskErrorView,
            >(spec_ensure_partitions(old(self)@, partitions@)->Err_0),
            spec_ensure_partitions(old(self)@, partitions@) is Ok && spec_validate_size(
                new_image_part_size_mb,
            ) is Err ==> disk_result(r) == Err::<bool, DiskErrorView>(
                spec_validate_size(new_image_part_size_mb)->Err_0,
            ),
            spec_ensure_partitions(old(self)@, partitions@) is Ok && spec_validate_size(
                new_image_part_size_mb,
            ) is Ok && spec_validate_size(new_data_part_size_mb) is Err ==> disk_result(r)
                == Err::<bool, DiskErrorView>(spec_validate_size(new_data_part_size_mb)->Err_0),
            r is Err ==> final(self)@ == old(self)@,
            r is Ok <==> (spec_ensure_partitions(old(self)@, partitions@) is Ok
                && spec_validate_size(new_image_part_size_mb) is Ok && spec_validate_size(
                new_data_part_size_mb,
            ) is Ok),
            r matches Ok(changed) ==> (final(self)@ == DiskManagerView {
                file_path: old(self)@.file_path,
                image_bytes: spec_validate_size(new_image_part_size_mb)->Ok_0 as nat,
                data_bytes: spec_validate_size(new_data_part_size_mb)->Ok_0 as nat,
            }),
            r matches Ok(changed) ==> changed == (final(self)@ != old(self)@),
    {
        proof {
            use_type_invariant(&*self);
        }
        match self.ensure_partitions_correctness(partitions) {
            Ok(()) => {},
            Err(e) => return Err(e),
        }
        let new_image = match Self::validate_and_convert_to_bytes(new_image_part_size_mb) {
            Ok(v) => v,
            Err(e) => return Err(e),
        };
        let new_data = match Self::validate_and_convert_to_bytes(new_data_part_size_mb) {
            Ok(v) => v,
            Err(e) => return Err(e),
        };
        if new_image != self.image_part_bytes_size || new_data != self.data_part_bytes_size {
            self.image_part_bytes_size = new_image;
            self.data_part_bytes_size = new_data;
            Ok(true)
        } else {
            Ok(false)
        }
    }

    /// UUID of the data partition.
    pub fn get_data_partition_uuid(&self, partitions: &Vec<PartitionInfo>) -> (r: Result<
        u128,
        ApplicationDiskManagerError,
    >)
        ensures
            match spec_lookup(
                partitions@,
                data_partition_name(),
                DiskErrorView::DataPartitionNotFound,
            ) {
                Ok(p) => r == Ok::<u128, ApplicationDiskManagerError>(p.part_guid),
                Err(e) => disk_result(r) == Err::<u128, DiskErrorView>(e),
            },
    {
        match self.get_data_partition(partitions) {
            Ok(p) => Ok(p.part_guid),
            Err(e) => Err(e),
        }
    }

    /// UUID of the image partition.
    pub fn get_image_partition_uuid(&self, partitions: &Vec<PartitionInfo>) -> (r: Result<
        u128,
        ApplicationDiskManagerError,
    >)
        ensures
            match spec_lookup(
                partitions@,
                image_partition_name(),
                DiskErrorView::ImagePartitionNotFound,
            ) {
                Ok(p) => r == Ok::<u128, ApplicationDiskManagerError>(p.part_guid),
                Err(e) => disk_result(r) == Err::<u128, DiskErrorView>(e),
            },
    {
        match self.get_image_partition(partitions) {
            Ok(p) => Ok(p.part_guid),
            Err(e) => Err(e),
        }
    }
}

/// A disk whose partition table holds exactly the partitions of the
/// manager's layout (`image`, then `data`), each as long as the layout asks,
/// passes the manager's check; with any other entries added before them it
/// still does, since the last entry of each name counts.
pub proof fn law_layout_is_accepted(m: DiskManagerView, before: Seq<PartitionInfo>, image: PartitionInfo, data: PartitionInfo)
    requires
        image.name@ == image_partition_name(),
        data.name@ == data_partition_name(),
        spec_bytes_len(image.first_lba, image.last_lba) == Ok::<u64, Seq<char>>(m.image_bytes as u64),
        spec_bytes_len(data.first_lba, data.last_lba) == Ok::<u64, Seq<char>>(m.data_bytes as u64),
        m.image_bytes <= u64::MAX,
        m.data_bytes <= u64::MAX,
    ensures
        spec_ensure_partitions(m, before + seq![image, data]) is Ok,
{
    reveal_strlit("image");
    reveal_strlit("data");
    let parts = before + seq![image, data];
    assert(image_partition_name() != data_partition_name()) by {
        assert(image_partition_name()[0] != data_partition_name()[0]);
    }
    assert(parts.last() == data);
    assert(parts.drop_last().last() == image);
    assert(last_index_named(parts, data_partition_name()) == parts.len() - 1);
    assert(last_index_named(parts.drop_last(), image_partition_name()) == parts.len() - 2);
    assert(last_index_named(parts, image_partition_name()) == parts.len() - 2);
}

proof fn lemma_not_named(parts: Seq<PartitionInfo>, name: Seq<char>)
    requires
        forall|i: int| 0 <= i < parts.len() ==> (#[trigger] parts[i]).name@ != name,
    ensures
        last_index_named(parts, name) == -1,
    decreases parts.len(),
{
    if parts.len() > 0 {
        assert(parts.last() == parts[parts.len() - 1]);
        assert forall|i: int| 0 <= i < parts.drop_last().len() implies (#[trigger] parts.drop_last()[i]).name@
            != name by {
            assert(parts.drop_last()[i] == parts[i]);
        }
        lemma_not_named(parts.drop_last(), name);
    }
}

proof fn lemma_named(parts: Seq<PartitionInfo>, name: Seq<char>, j: int)
    requires
        0 <= j < parts.len(),
        parts[j].name@ == name,
    ensures
        last_index_named(parts, name) >= j,
    decreases parts.len(),
{
    if parts.last().name@ != name {
        assert(j < parts.len() - 1);
        assert(parts.drop_last()[j] == parts[j]);
        lemma_named(parts.drop_last(), name, j);
    }
}

/// A requested partition size of 1 to 102400 MiB is accepted and converted
/// to bytes (1 MiB is 1048576 bytes); 0 MiB is refused as empty, and more
/// than 102400 MiB as too big, naming the size asked for and the maximum. A
/// disk image holds both partitions and two GPT copies of 34 sectors of 512
/// bytes; it is the file `disk.raw`, with partitions named `image` and `data`.
pub proof fn law_partition_sizes(size_mb: u32, m: DiskManagerView)
    ensures
        1 <= size_mb <= 102400 ==> spec_validate_size(size_mb) == Ok::<u64, DiskErrorView>(
            (size_mb * 1048576) as u64,
        ) && size_mb * 1048576 <= u64::MAX,
        size_mb == 0 ==> spec_validate_size(size_mb) == Err::<u64, DiskErrorView>(
            DiskErrorView::RequestedEmptyPartition,
        ),
        size_mb > 102400 ==> spec_validate_size(size_mb) == Err::<u64, DiskErrorView>(
            DiskErrorView::RequestedTooBigPartition(
                "Requested size is: "@ + decimal(size_mb as nat) + ", maximum size is: "@ + decimal(102400)
                    + "."@,
            ),
        ),
        decimal(102400) == "102400"@,
        spec_total_size(m) == m.data_bytes + m.image_bytes + 34816,
        disk_name() == "disk.raw"@,
        image_partition_name() == "image"@,
        data_partition_name() == "data"@,
{
    assert(decimal(102400) =~= "102400"@) by {
        reveal_strlit("102400");
        reveal_with_fuel(digits_in_base, 7);
    }
}

/// The check of a disk's partitions looks for the image partition first,
/// then for the data partition, then checks the image's size, then the
/// data's: a table without an `image` entry has no image partition; one with
/// an `image` entry but no `data` entry has no data partition; a table of one
/// `image` and one `data` entry is refused for the first of them whose length
/// differs from the manager's, and accepted when neither does.
pub proof fn law_partition_check_order(m: DiskManagerView, parts: Seq<PartitionInfo>, image: PartitionInfo, data: PartitionInfo)
    ensures
        (forall|i: int| 0 <= i < parts.len() ==> (#[trigger] parts[i]).name@ != "image"@) ==> spec_ensure_partitions(
            m,
            parts,
        ) == Err::<(), DiskErrorView>(DiskErrorView::ImagePartitionNotFound),
        (exists|j: int| 0 <= j < parts.len() && (#[trigger] parts[j]).name@ == "image"@) && (forall|i: int|
            0 <= i < parts.len() ==> (#[trigger] parts[i]).name@ != "data"@) ==> spec_ensure_partitions(m, parts)
            == Err::<(), DiskErrorView>(DiskErrorView::DataPartitionNotFound),
        image.name@ == "image"@ && data.name@ == "data"@ ==> {
            let t = seq![image, data];
            &&& (spec_bytes_len(image.first_lba, image.last_lba) is Ok && spec_bytes_len(image.first_lba, image.last_lba)->Ok_0 != m.image_bytes)
                ==> spec_ensure_partitions(m, t) == Err::<(), DiskErrorView>(DiskErrorView::ImagePartitionSizeIncorrect)
            &&& (spec_bytes_len(image.first_lba, image.last_lba) == Ok::<u64, Seq<char>>(m.image_bytes as u64)
                && m.image_bytes <= u64::MAX && spec_bytes_len(data.first_lba, data.last_lba) is Ok
                && spec_bytes_len(data.first_lba, data.last_lba)->Ok_0 != m.data_bytes) ==> spec_ensure_partitions(m, t) == Err::<(), DiskErrorView>(
                DiskErrorView::DataPartitionSizeIncorrect,
            )
            &&& (spec_bytes_len(image.first_lba, image.last_lba) == Ok::<u64, Seq<char>>(m.image_bytes as u64)
                && m.image_bytes <= u64::MAX && spec_bytes_len(data.first_lba, data.last_lba) == Ok::<
                u64,
                Seq<char>,
            >(m.data_bytes as u64) && m.data_bytes <= u64::MAX) ==> spec_ensure_partitions(m, t) is Ok
        },
{
    reveal_strlit("image");
    reveal_strlit("data");
    if forall|i: int| 0 <= i < parts.len() ==> (#[trigger] parts[i]).name@ != "image"@ {
        lemma_not_named(parts, image_partition_name());
    }
    if (exists|j: int| 0 <= j < parts.len() && (#[trigger] parts[j]).name@ == "image"@) && (forall|i: int|
        0 <= i < parts.len() ==> (#[trigger] parts[i]).name@ != "data"@) {
        let j = choose|j: int| 0 <= j < parts.len() && (#[trigger] parts[j]).name@ == "image"@;
        lemma_named(parts, image_partition_name(), j);
        lemma_not_named(parts, data_partition_name());
    }
    if image.name@ == "image"@ && data.name@ == "data"@ {
        let t = seq![image, data];
        assert(image_partition_name()[0] != data_partition_name()[0]);
        assert(t.last() == data);
        assert(t.drop_last().last() == image);
        assert(last_index_named(t, data_partition_name()) == 1);
        assert(last_index_named(t.drop_last(), image_partition_name()) == 0);
        assert(last_index_named(t, image_partition_name()) == 0);
    }
}

} // verus!
