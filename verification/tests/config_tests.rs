use hustoa_vm::config::{
    default_disk_size, default_libvirt_network, default_libvirt_save, default_libvirt_storage,
    default_memory_size, default_vcpus, CommonConfig,
};

#[test]
fn test_default_libvirt_storage() {
    let path = default_libvirt_storage();
    assert_eq!(path, "/var/lib/libvirt/images");
}

#[test]
fn test_default_libvirt_save() {
    let path = default_libvirt_save();
    assert_eq!(path, "/var/lib/libvirt/qemu/save");
}

#[test]
fn test_default_libvirt_network() {
    let network = default_libvirt_network();
    assert_eq!(network, "default");
}

#[test]
fn test_default_disk_size() {
    let size = default_disk_size();
    assert_eq!(size, 80);
}

#[test]
fn test_default_vcpus() {
    let vcpus = default_vcpus();
    assert_eq!(vcpus, 16);
}

#[test]
fn test_default_memory_size() {
    let memory = default_memory_size();
    assert_eq!(memory, 16);
}

#[test]
fn common_config_fills_missing_settings_with_defaults() {
    let c = CommonConfig::from_options(
        Some("/custom/storage".to_string()),
        Some("/custom/save".to_string()),
        Some("mynetwork".to_string()),
        None,
        None,
        None,
    );
    assert_eq!(c.libvirt_storage, "/custom/storage");
    assert_eq!(c.libvirt_save, "/custom/save");
    assert_eq!(c.libvirt_network, "mynetwork");
    assert_eq!(c.default_disk_size, 80);
    assert_eq!(c.default_vcpus, 16);
    assert_eq!(c.default_memory_size, 16);
}

#[test]
fn common_config_keeps_given_settings() {
    let c = CommonConfig::from_options(None, None, None, Some(100), Some(8), Some(32));
    assert_eq!(c.libvirt_storage, "/var/lib/libvirt/images");
    assert_eq!(c.libvirt_save, "/var/lib/libvirt/qemu/save");
    assert_eq!(c.libvirt_network, "default");
    assert_eq!(c.default_disk_size, 100);
    assert_eq!(c.default_vcpus, 8);
    assert_eq!(c.default_memory_size, 32);
}
