use warden::disk::{
    ApplicationDiskManager, ApplicationDiskManagerError, PartitionInfo, LBA_SIZE, MAX_PARTITION_SIZE_MB,
};

const MIB: u64 = 1024 * 1024;

fn partition(name: &str, first_lba: u64, size_mb: u64, guid: u128) -> PartitionInfo {
    PartitionInfo {
        name: name.to_string(),
        part_guid: guid,
        first_lba,
        last_lba: first_lba + size_mb * MIB / LBA_SIZE - 1,
    }
}

#[test]
fn calculate_total_size() {
    const IMAGE_PART_SIZE_MB: u32 = 1;
    const DATA_PART_SIZE_MB: u32 = 1;
    let disk_manager = ApplicationDiskManager::new(".", IMAGE_PART_SIZE_MB, DATA_PART_SIZE_MB).unwrap();
    assert_eq!(
        disk_manager.calculate_total_size(),
        IMAGE_PART_SIZE_MB as u64 * 1024 * 1024
            + DATA_PART_SIZE_MB as u64 * 1024 * 1024
            + 34 as u64 * 2 * u64::from(LBA_SIZE)
    );
}

#[test]
fn validate_and_convert_to_bytes() {
    const PARTITION_SIZE_MB: u32 = 1;
    assert_eq!(
        ApplicationDiskManager::validate_and_convert_to_bytes(PARTITION_SIZE_MB).unwrap(),
        PARTITION_SIZE_MB as u64 * 1024 * 1024
    );
}

#[test]
fn validate_and_convert_to_bytes_to_much_space_requested() {
    const PARTITION_SIZE_MB: u32 = 1024 * 100 + 1; // Exceeding limit by 1 MB
    assert!(matches!(
        ApplicationDiskManager::validate_and_convert_to_bytes(PARTITION_SIZE_MB),
        Err(ApplicationDiskManagerError::RequestedTooBigPartition(_))
    ));
}

#[test]
fn validate_and_convert_to_bytes_empty_space() {
    const PARTITION_SIZE_MB: u32 = 0;
    assert!(matches!(
        ApplicationDiskManager::validate_and_convert_to_bytes(PARTITION_SIZE_MB),
        Err(ApplicationDiskManagerError::RequestedEmptyPartition())
    ));
}

#[test]
fn too_big_partition_message_names_both_sizes() {
    assert_eq!(
        ApplicationDiskManager::validate_and_convert_to_bytes(MAX_PARTITION_SIZE_MB + 1),
        Err(ApplicationDiskManagerError::RequestedTooBigPartition(
            "Requested size is: 102401, maximum size is: 102400.".to_string()
        ))
    );
}

#[test]
fn largest_partition_is_accepted() {
    assert_eq!(
        ApplicationDiskManager::validate_and_convert_to_bytes(MAX_PARTITION_SIZE_MB),
        Ok(102400 * MIB)
    );
}

#[test]
fn new_checks_data_size_before_image_size() {
    assert_eq!(
        ApplicationDiskManager::new("/tmp", 0, 200000).err(),
        Some(ApplicationDiskManagerError::RequestedTooBigPartition(
            "Requested size is: 200000, maximum size is: 102400.".to_string()
        ))
    );
    assert_eq!(
        ApplicationDiskManager::new("/tmp", 0, 1).err(),
        Some(ApplicationDiskManagerError::RequestedEmptyPartition())
    );
}

#[test]
fn disk_file_lies_in_the_workdir() {
    let m = ApplicationDiskManager::new("/var/warden/app", 10, 20).unwrap();
    assert_eq!(m.file_path(), "/var/warden/app/disk.raw");
    let m = ApplicationDiskManager::new("/var/warden/app/", 10, 20).unwrap();
    assert_eq!(m.file_path(), "/var/warden/app/disk.raw");
    assert_eq!(m.image_part_bytes_size(), 10 * MIB);
    assert_eq!(m.data_part_bytes_size(), 20 * MIB);
}

#[test]
fn layout_and_protective_mbr() {
    let m = ApplicationDiskManager::new(".", 10, 20).unwrap();
    let layout = m.partition_layout();
    assert_eq!(layout, vec![("image".to_string(), 10 * MIB), ("data".to_string(), 20 * MIB)]);
    let total = 30 * MIB + 68 * 512;
    assert_eq!(m.calculate_total_size(), total);
    assert_eq!(m.last_byte_offset(), total - 1);
    assert_eq!(m.protective_mbr_size() as u64, total / 512 - 1);
}

#[test]
fn partition_length_in_bytes() {
    let p = partition("data", 34, 1, 7);
    assert_eq!(p.bytes_len(), Ok(MIB));
    let bad = PartitionInfo { name: "x".to_string(), part_guid: 0, first_lba: 10, last_lba: 9 };
    assert_eq!(bad.bytes_len(), Err("partition length underflow - sectors".to_string()));
    let huge = PartitionInfo { name: "x".to_string(), part_guid: 0, first_lba: 0, last_lba: u64::MAX };
    assert_eq!(huge.bytes_len(), Err("partition length overflow - sectors".to_string()));
    let big = PartitionInfo { name: "x".to_string(), part_guid: 0, first_lba: 0, last_lba: u64::MAX / 2 };
    assert_eq!(big.bytes_len(), Err("partition length overflow - bytes".to_string()));
}

#[test]
fn correct_partitions_are_accepted_and_give_their_uuids() {
    let m = ApplicationDiskManager::new(".", 10, 20).unwrap();
    let parts = vec![partition("image", 34, 10, 0xAA), partition("data", 34 + 20480, 20, 0xBB)];
    assert_eq!(m.ensure_partitions_correctness(&parts), Ok(()));
    assert_eq!(m.get_image_partition_uuid(&parts), Ok(0xAA));
    assert_eq!(m.get_data_partition_uuid(&parts), Ok(0xBB));
    assert!(!m.needs_creation(&Ok(parts)));
}

#[test]
fn missing_or_wrong_partitions_are_refused() {
    let m = ApplicationDiskManager::new(".", 10, 20).unwrap();
    let only_data = vec![partition("data", 34, 20, 1)];
    assert_eq!(
        m.ensure_partitions_correctness(&only_data),
        Err(ApplicationDiskManagerError::ImagePartitionNotFound())
    );
    assert_eq!(m.get_data_partition_uuid(&only_data), Ok(1));
    let only_image = vec![partition("image", 34, 10, 1)];
    assert_eq!(
        m.ensure_partitions_correctness(&only_image),
        Err(ApplicationDiskManagerError::DataPartitionNotFound())
    );
    let wrong_sizes = vec![partition("image", 34, 11, 1), partition("data", 40000, 21, 2)];
    assert_eq!(
        m.ensure_partitions_correctness(&wrong_sizes),
        Err(ApplicationDiskManagerError::ImagePartitionSizeIncorrect())
    );
    let wrong_data = vec![partition("image", 34, 10, 1), partition("data", 40000, 21, 2)];
    assert_eq!(
        m.ensure_partitions_correctness(&wrong_data),
        Err(ApplicationDiskManagerError::DataPartitionSizeIncorrect())
    );
    assert!(m.needs_creation(&Ok(wrong_data)));
    assert!(m.needs_creation(&Err("no table".to_string())));
}

#[test]
fn the_last_partition_of_a_name_counts() {
    let m = ApplicationDiskManager::new(".", 10, 20).unwrap();
    let parts = vec![
        partition("image", 34, 5, 1),
        partition("data", 20000, 20, 2),
        partition("image", 70000, 10, 3),
    ];
    assert_eq!(m.get_image_partition_uuid(&parts), Ok(3));
    assert_eq!(m.ensure_partitions_correctness(&parts), Ok(()));
}

#[test]
fn update_reports_whether_sizes_changed() {
    let mut m = ApplicationDiskManager::new(".", 10, 20).unwrap();
    let parts = vec![partition("image", 34, 10, 1), partition("data", 40000, 20, 2)];
    assert_eq!(m.update_partitions_if_sizes_differ(&parts, 20, 10), Ok(false));
    assert_eq!(m.update_partitions_if_sizes_differ(&parts, 40, 10), Ok(true));
    assert_eq!(m.data_part_bytes_size(), 40 * MIB);
    assert_eq!(m.image_part_bytes_size(), 10 * MIB);
}

#[test]
fn update_refuses_bad_layout_or_sizes_and_keeps_the_manager() {
    let mut m = ApplicationDiskManager::new(".", 10, 20).unwrap();
    let parts = vec![partition("image", 34, 10, 1), partition("data", 40000, 20, 2)];
    assert_eq!(
        m.update_partitions_if_sizes_differ(&parts, 0, 0),
        Err(ApplicationDiskManagerError::RequestedEmptyPartition())
    );
    assert_eq!(
        m.update_partitions_if_sizes_differ(&parts, 0, 5),
        Err(ApplicationDiskManagerError::RequestedEmptyPartition())
    );
    let broken = vec![partition("data", 40000, 20, 2)];
    assert_eq!(
        m.update_partitions_if_sizes_differ(&broken, 30, 30),
        Err(ApplicationDiskManagerError::ImagePartitionNotFound())
    );
    assert_eq!(m.image_part_bytes_size(), 10 * MIB);
    assert_eq!(m.data_part_bytes_size(), 20 * MIB);
}

#[test]
fn an_unreadable_partition_length_is_reported() {
    let m = ApplicationDiskManager::new(".", 10, 20).unwrap();
    let broken = vec![
        PartitionInfo { name: "image".to_string(), part_guid: 1, first_lba: 100, last_lba: 50 },
        partition("data", 40000, 20, 2),
    ];
    assert_eq!(
        m.ensure_partitions_correctness(&broken),
        Err(ApplicationDiskManagerError::GetPartitionSize("partition length underflow - sectors".to_string()))
    );
}
