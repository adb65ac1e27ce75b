use stockin_api::seed::{items, seed_params};

#[test]
fn seed_items_are_the_fifteen_bookmarks() {
    let list = items();
    assert_eq!(list.len(), 15);
    assert_eq!(
        list[0],
        (
            "Android",
            "https://www.android.com/",
            "https://lh3.googleusercontent.com/GTmuiIZrppouc6hhdWiocybtRx1Tpbl52eYw4l-nAqHtHd4BpSMEqe-vGv7ZFiaHhG_l4v2m5Fdhapxw9aFLf28ErztHEv5WYIz5fA"
        )
    );
    assert_eq!(list[1], ("TypeScript", "https://www.typescriptlang.org/", ""));
    assert_eq!(list[5].0, "Rustプログラミング言語");
    assert_eq!(list[14].1, "https://zenn.dev/techno_tanoc/articles/99e54c82cb049f");
}

#[test]
fn seed_params_follow_the_items() {
    let list = items();
    let params = seed_params();
    assert_eq!(params.len(), list.len());
    for (p, (title, url, thumbnail)) in params.iter().zip(list.iter()) {
        assert_eq!(p.title, *title);
        assert_eq!(p.url, *url);
        assert_eq!(p.thumbnail, *thumbnail);
    }
}
