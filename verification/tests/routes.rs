use clubsite::routes::{routes, Guard, Method, Route};

#[test]
fn routes_are_mounted_in_order() {
    let r = routes();
    assert_eq!(r.len(), 29);
    assert_eq!(r[0], Route::Index);
    assert_eq!(r[4], Route::Admin);
    assert_eq!(r[8], Route::AdminNoUser);
    assert_eq!(r[28], Route::UploadImage);
}

#[test]
fn route_details() {
    assert_eq!(Route::Index.uri(), "/");
    assert_eq!(Route::Index.method(), Method::Get);
    assert_eq!(Route::LoginUser.uri(), "/login");
    assert_eq!(Route::LoginUser.method(), Method::Post);
    assert_eq!(Route::AdminNoUser.rank(), Some(2));
    assert_eq!(Route::Page.rank(), Some(3));
    assert_eq!(Route::Admin.rank(), None);
    assert_eq!(Route::GetPageWithContent.uri(), "/admin/page/<page>/<content_id>");
    assert_eq!(Route::GetUsers.guard(), Guard::SuperAdmin);
    assert_eq!(Route::EditPage.guard(), Guard::Admin);
    assert_eq!(Route::Page.guard(), Guard::Open);
}

#[test]
fn admin_area_is_guarded_but_the_upload() {
    for r in routes() {
        if r.uri().starts_with("/admin/") && r != Route::UploadImage {
            assert_ne!(r.guard(), Guard::Open, "{:?}", r);
        }
        if r.uri().starts_with("/admin/user") {
            assert_eq!(r.guard(), Guard::SuperAdmin, "{:?}", r);
        }
    }
    assert_eq!(Route::UploadImage.guard(), Guard::Open);
}

#[test]
fn only_the_upload_requires_a_format() {
    assert_eq!(Route::UploadImage.format(), Some("image/*"));
    for r in routes() {
        if r != Route::UploadImage {
            assert_eq!(r.format(), None, "{:?}", r);
        }
    }
}

#[test]
fn no_two_routes_share_method_path_and_rank() {
    let r = routes();
    for i in 0..r.len() {
        for j in 0..r.len() {
            if i != j {
                assert!(
                    r[i].method() != r[j].method() || r[i].uri() != r[j].uri() || r[i].rank() != r[j].rank(),
                    "{:?} {:?}", r[i], r[j]
                );
            }
        }
    }
}
