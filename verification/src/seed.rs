use vstd::prelude::*;

use crate::domain::item::ItemParams;

verus! {

/// The bookmarks a fresh store is filled with: title, address, preview image.
pub open spec fn seed_entries() -> Seq<(&'static str, &'static str, &'static str)> {
    seq![
        ("Android", "https://www.android.com/", "https://lh3.googleusercontent.com/GTmuiIZrppouc6hhdWiocybtRx1Tpbl52eYw4l-nAqHtHd4BpSMEqe-vGv7ZFiaHhG_l4v2m5Fdhapxw9aFLf28ErztHEv5WYIz5fA"),
        ("TypeScript", "https://www.typescriptlang.org/", ""),
        ("The Go Programming Language", "https://golang.org/", ""),
        ("Docker", "https://www.docker.com/", "https://www.docker.com/wp-content/uploads/2022/12/Docker-Temporary-Image-Social-Thumbnail-1200x630-1.png"),
        ("Haskell Language", "https://www.haskell.org/", ""),
        ("Rustプログラミング言語", "https://www.rust-lang.org/ja", "https://www.rust-lang.org/static/images/rust-social-wide.jpg"),
        ("GitLab", "https://gitlab.com/", ""),
        ("GitHub", "https://github.com/", "https://github.githubassets.com/images/modules/site/social-cards/github-social.png"),
        ("Twitter", "https://twitter.com/home", ""),
        ("ニコニコ動画", "https://www.nicovideo.jp/", "https://nicovideo.cdn.nimg.jp/uni/images/ogp.png"),
        ("YouTube", "https://www.youtube.com/", "https://www.youtube.com/img/desktop/yt_1200.png"),
        ("Qiita", "https://qiita.com/", "https://cdn.qiita.com/assets/qiita-ogp-3b6fcfdd74755a85107071ffc3155898.png"),
        ("CircleCIでイメージをビルドしてGCRにプッシュする", "https://qiita.com/techno-tanoC/items/845bb906156e66a24b7f", ""),
        ("Zenn", "https://zenn.dev/", "https://zenn.dev/images/logo-only-dark.png"),
        ("Rustの新しいWEBフレームワークaxumを触ってみた", "https://zenn.dev/techno_tanoc/articles/99e54c82cb049f", "")
    ]
}

/// The bookmarks a fresh store is filled with, in order.
pub fn items() -> (r: Vec<(&'static str, &'static str, &'static str)>)
    ensures
        r@ == seed_entries(),
        r@.len() == 15,
        r@[0] == ("Android", "https://www.android.com/", "https://lh3.googleusercontent.com/GTmuiIZrppouc6hhdWiocybtRx1Tpbl52eYw4l-nAqHtHd4BpSMEqe-vGv7ZFiaHhG_l4v2m5Fdhapxw9aFLf28ErztHEv5WYIz5fA"),
        r@[1] == ("TypeScript", "https://www.typescriptlang.org/", ""),
        r@[2] == ("The Go Programming Language", "https://golang.org/", ""),
        r@[3] == ("Docker", "https://www.docker.com/", "https://www.docker.com/wp-content/uploads/2022/12/Docker-Temporary-Image-Social-Thumbnail-1200x630-1.png"),
        r@[4] == ("Haskell Language", "https://www.haskell.org/", ""),
        r@[5] == ("Rustプログラミング言語", "https://www.rust-lang.org/ja", "https://www.rust-lang.org/static/images/rust-social-wide.jpg"),
        r@[6] == ("GitLab", "https://gitlab.com/", ""),
        r@[7] == ("GitHub", "https://github.com/", "https://github.githubassets.com/images/modules/site/social-cards/github-social.png"),
        r@[8] == ("Twitter", "https://twitter.com/home", ""),
        r@[9] == ("ニコニコ動画", "https://www.nicovideo.jp/", "https://nicovideo.cdn.nimg.jp/uni/images/ogp.png"),
        r@[10] == ("YouTube", "https://www.youtube.com/", "https://www.youtube.com/img/desktop/yt_1200.png"),
        r@[11] == ("Qiita", "https://qiita.com/", "https://cdn.qiita.com/assets/qiita-ogp-3b6fcfdd74755a85107071ffc3155898.png"),
        r@[12] == ("CircleCIでイメージをビルドしてGCRにプッシュする", "https://qiita.com/techno-tanoC/items/845bb906156e66a24b7f", ""),
        r@[13] == ("Zenn", "https://zenn.dev/", "https://zenn.dev/images/logo-only-dark.png"),
        r@[14] == ("Rustの新しいWEBフレームワークaxumを触ってみた", "https://zenn.dev/techno_tanoc/articles/99e54c82cb049f", ""),
{
    let mut r: Vec<(&'static str, &'static str, &'static str)> = Vec::new();
    r.push(("Android", "https://www.android.com/", "https://lh3.googleusercontent.com/GTmuiIZrppouc6hhdWiocybtRx1Tpbl52eYw4l-nAqHtHd4BpSMEqe-vGv7ZFiaHhG_l4v2m5Fdhapxw9aFLf28ErztHEv5WYIz5fA"));
    r.push(("TypeScript", "https://www.typescriptlang.org/", ""));
    r.push(("The Go Programming Language", "https://golang.org/", ""));
    r.push(("Docker", "https://www.docker.com/", "https://www.docker.com/wp-content/uploads/2022/12/Docker-Temporary-Image-Social-Thumbnail-1200x630-1.png"));
    r.push(("Haskell Language", "https://www.haskell.org/", ""));
    r.push(("Rustプログラミング言語", "https://www.rust-lang.org/ja", "https://www.rust-lang.org/static/images/rust-social-wide.jpg"));
    r.push(("GitLab", "https://gitlab.com/", ""));
    r.push(("GitHub", "https://github.com/", "https://github.githubassets.com/images/modules/site/social-cards/github-social.png"));
    r.push(("Twitter", "https://twitter.com/home", ""));
    r.push(("ニコニコ動画", "https://www.nicovideo.jp/", "https://nicovideo.cdn.nimg.jp/uni/images/ogp.png"));
    r.push(("YouTube", "https://www.youtube.com/", "https://www.youtube.com/img/desktop/yt_1200.png"));
    r.push(("Qiita", "https://qiita.com/", "https://cdn.qiita.com/assets/qiita-ogp-3b6fcfdd74755a85107071ffc3155898.png"));
    r.push(("CircleCIでイメージをビルドしてGCRにプッシュする", "https://qiita.com/techno-tanoC/items/845bb906156e66a24b7f", ""));
    r.push(("Zenn", "https://zenn.dev/", "https://zenn.dev/images/logo-only-dark.png"));
    r.push(("Rustの新しいWEBフレームワークaxumを触ってみた", "https://zenn.dev/techno_tanoc/articles/99e54c82cb049f", ""));
    r
}

/// The creation requests for the seed bookmarks, in order.
pub fn seed_params() -> (r: Vec<ItemParams>)
    ensures
        r@.len() == seed_entries().len(),
        forall|i: int|
            0 <= i < r@.len() ==> {
                &&& (#[trigger] r@[i]).title@ == seed_entries()[i].0@
                &&& r@[i].url@ == seed_entries()[i].1@
                &&& r@[i].thumbnail@ == seed_entries()[i].2@
            },
{
    let entries = items();
    let mut r: Vec<ItemParams> = Vec::new();
    let mut i: usize = 0;
    while i < entries.len()
        invariant
            entries@ == seed_entries(),
            i <= entries@.len(),
            r@.len() == i,
            forall|j: int|
                0 <= j < i ==> {
                    &&& (#[trigger] r@[j]).title@ == seed_entries()[j].0@
                    &&& r@[j].url@ == seed_entries()[j].1@
                    &&& r@[j].thumbnail@ == seed_entries()[j].2@
                },
        decreases entries@.len() - i,
    {
        let (title, url, thumbnail) = entries[i];
        r.push(
            ItemParams {
                title: String::from_str(title),
                url: String::from_str(url),
                thumbnail: String::from_str(thumbnail),
            },
        );
        i = i + 1;
    }
    r
}

/// The seed bookmarks are these fifteen (title, address, preview image)
/// entries, in this order.
pub proof fn lemma_seed_bookmarks()
    ensures
        seed_entries().len() == 15,
        seed_entries()[0] == ("Android", "https://www.android.com/", "https://lh3.googleusercontent.com/GTmuiIZrppouc6hhdWiocybtRx1Tpbl52eYw4l-nAqHtHd4BpSMEqe-vGv7ZFiaHhG_l4v2m5Fdhapxw9aFLf28ErztHEv5WYIz5fA"),
        seed_entries()[1] == ("TypeScript", "https://www.typescriptlang.org/", ""),
        seed_entries()[2] == ("The Go Programming Language", "https://golang.org/", ""),
        seed_entries()[3] == ("Docker", "https://www.docker.com/", "https://www.docker.com/wp-content/uploads/2022/12/Docker-Temporary-Image-Social-Thumbnail-1200x630-1.png"),
        seed_entries()[4] == ("Haskell Language", "https://www.haskell.org/", ""),
        seed_entries()[5] == ("Rustプログラミング言語", "https://www.rust-lang.org/ja", "https://www.rust-lang.org/static/images/rust-social-wide.jpg"),
        seed_entries()[6] == ("GitLab", "https://gitlab.com/", ""),
        seed_entries()[7] == ("GitHub", "https://github.com/", "https://github.githubassets.com/images/modules/site/social-cards/github-social.png"),
        seed_entries()[8] == ("Twitter", "https://twitter.com/home", ""),
        seed_entries()[9] == ("ニコニコ動画", "https://www.nicovideo.jp/", "https://nicovideo.cdn.nimg.jp/uni/images/ogp.png"),
        seed_entries()[10] == ("YouTube", "https://www.youtube.com/", "https://www.youtube.com/img/desktop/yt_1200.png"),
        seed_entries()[11] == ("Qiita", "https://qiita.com/", "https://cdn.qiita.com/assets/qiita-ogp-3b6fcfdd74755a85107071ffc3155898.png"),
        seed_entries()[12] == ("CircleCIでイメージをビルドしてGCRにプッシュする", "https://qiita.com/techno-tanoC/items/845bb906156e66a24b7f", ""),
        seed_entries()[13] == ("Zenn", "https://zenn.dev/", "https://zenn.dev/images/logo-only-dark.png"),
        seed_entries()[14] == ("Rustの新しいWEBフレームワークaxumを触ってみた", "https://zenn.dev/techno_tanoc/articles/99e54c82cb049f", ""),
{
}

} // verus!
