use hwsystem::cache::MokaCacheWrapper;
use hwsystem::domain::ClassUserService;
use hwsystem::domain::HomeworkService;
use hwsystem::domain::SystemService;
use hwsystem::models::LoginRequest;
use hwsystem::store::MigrationStore;

#[test]
fn lazy_services_start_without_storage() {
    let class_users: ClassUserService<MigrationStore> = ClassUserService::new_lazy();
    assert!(class_users.storage.is_none());
    let homeworks: HomeworkService<MigrationStore> = HomeworkService::new_lazy();
    assert!(homeworks.storage.is_none());
}

#[test]
fn services_expose_their_injected_configuration() {
    let homeworks: HomeworkService<MigrationStore> = HomeworkService::new_lazy();
    assert_eq!(homeworks.get_config().database_url, "");
    let system = SystemService::new_lazy();
    assert_eq!(system.get_config().database_url, "");
}

#[test]
fn login_request_carries_plain_credentials() {
    let req = LoginRequest { username: "admin".to_string(), password: "pw".to_string() };
    assert_eq!(req.username, "admin");
    assert_eq!(req.password, "pw");
}

#[test]
fn moka_cache_wrapper_builds() {
    let _cache = MokaCacheWrapper::new();
}
