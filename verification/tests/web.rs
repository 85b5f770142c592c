use hawk::assets::{images_get, style_script_get};
use hawk::auth::{Auth, SESSION};
use hawk::cache::SessionCache;
use hawk::error::Error;
use hawk::response::{Css, Either, IntoResponse, Js, Response, StatusCode};
use hawk::routes::{routes, Handler, Route};

#[test]
fn css_response() {
    let r = Css("body {}").into_response();
    assert_eq!(
        r,
        Response {
            status: StatusCode(200),
            cache_control: Some("public, max-age=604800"),
            content_type: Some("text/css; charset=UTF-8"),
            body: b"body {}".to_vec(),
        }
    );
}

#[test]
fn js_response() {
    let r = Js("let a;").into_response();
    assert_eq!(r.status, StatusCode(200));
    assert_eq!(r.cache_control, Some("public, max-age=604800"));
    assert_eq!(r.content_type, Some("text/javascript; charset=UTF-8"));
    assert_eq!(r.body, b"let a;".to_vec());
}

#[test]
fn status_response_is_bare() {
    let r = StatusCode(404).into_response();
    assert_eq!(
        r,
        Response { status: StatusCode(404), cache_control: None, content_type: None, body: vec![] }
    );
}

#[test]
fn either_answers_as_its_side() {
    let left: Either<Css, StatusCode> = Either::Left(Css("a"));
    let right: Either<Css, StatusCode> = Either::Right(StatusCode(401));
    assert_eq!(left.into_response(), Css("a").into_response());
    assert_eq!(right.into_response(), StatusCode(401).into_response());
}

#[test]
fn script_and_style_by_name() {
    assert_eq!(
        style_script_get("axios.min.js", "script", "style"),
        Either::Left(Either::Right(Js("script")))
    );
    assert_eq!(
        style_script_get("style.css", "script", "style"),
        Either::Left(Either::Left(Css("style")))
    );
}

#[test]
fn unknown_asset_is_not_found() {
    for name in ["", "style.cs", "style.csss", "Style.css", "axios.min.jsx", "../style.css"] {
        assert_eq!(style_script_get(name, "script", "style"), Either::Right(StatusCode(404)));
    }
}

#[test]
fn thumbnail_is_served_as_webp() {
    assert_eq!(
        images_get(Some(vec![1, 2, 3])),
        Either::Left(Response {
            status: StatusCode(200),
            cache_control: Some("public, max-age=604800"),
            content_type: Some("image/webp"),
            body: vec![1, 2, 3],
        })
    );
    assert_eq!(images_get(None), Either::Right(StatusCode(404)));
}

#[test]
fn only_a_live_session_is_let_in() {
    assert_eq!(SESSION, "hawk-session");
    assert_eq!(Auth::judge(Some(Ok(true))), Ok(Auth));
    assert_eq!(Auth::judge(Some(Ok(false))), Err(StatusCode(401)));
    assert_eq!(Auth::judge(Some(Err(Error::StoreFailure))), Err(StatusCode(401)));
    assert_eq!(Auth::judge(None), Err(StatusCode(401)));
}

#[test]
fn request_is_judged_through_the_session_cache() {
    let mut sessions = SessionCache::new();
    assert_eq!(Auth::from_request(None, &mut sessions, || Ok(true)), Err(StatusCode(401)));
    assert_eq!(Auth::from_request(Some("abc"), &mut sessions, || Ok(true)), Ok(Auth));
    assert_eq!(Auth::from_request(Some("abc"), &mut sessions, || Ok(false)), Ok(Auth));
    assert_eq!(Auth::from_request(Some("xyz"), &mut sessions, || Ok(false)), Err(StatusCode(401)));
    sessions.invalidate();
    assert_eq!(
        Auth::from_request(Some("abc"), &mut sessions, || Err(Error::StoreFailure)),
        Err(StatusCode(401))
    );
    assert_eq!(Auth::from_request(Some("abc"), &mut sessions, || Ok(false)), Err(StatusCode(401)));
}

#[test]
fn failures_map_to_statuses() {
    assert_eq!(Error::SniffFailure.status(), StatusCode(415));
    for error in [
        Error::IoFailure,
        Error::StoreFailure,
        Error::TranscodeFailure,
        Error::DecodeFailure,
        Error::ExternalProcessSpawnFailure,
        Error::HashFailure,
    ] {
        assert_eq!(error.status(), StatusCode(500));
    }
}

#[test]
fn failures_have_messages() {
    assert_eq!(Error::SniffFailure.message(), "invalid file type uploaded");
    assert_eq!(Error::IoFailure.message(), "io: file or network operation failed");
    assert_eq!(Error::StoreFailure.message(), "store: query or transaction failed");
    assert_eq!(Error::TranscodeFailure.message(), "ffmpeg: no frame extracted");
    assert_eq!(Error::DecodeFailure.message(), "image: frame could not be decoded or encoded");
    assert_eq!(Error::ExternalProcessSpawnFailure.message(), "ffmpeg: could not be started");
    assert_eq!(Error::HashFailure.message(), "bcrypt: stored hash could not be read");
}

#[test]
fn route_table() {
    let table = routes();
    let expected = vec![
        Route { path: "/", get: Handler::Index, post: Some(Handler::Index) },
        Route { path: "/admin", get: Handler::Admin, post: None },
        Route { path: "/assets/:name", get: Handler::StyleScript, post: None },
        Route { path: "/assets/images/:id", get: Handler::Image, post: None },
        Route { path: "/login", get: Handler::LoginPage, post: Some(Handler::Login) },
        Route { path: "/upload", get: Handler::UploadPage, post: Some(Handler::Upload) },
        Route { path: "/video/:id", get: Handler::Video, post: None },
    ];
    assert_eq!(table, expected);
}
